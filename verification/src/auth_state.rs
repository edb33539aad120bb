//! The in-memory session: who is signed in and with which tokens.
//!
//! One mutable state object replaces scattered globals; callers update it
//! after a successful login and clear it at logout.

use crate::errors::AuthError;
use crate::pkce::new_uuid;
use vstd::prelude::*;

verus! {

/// The signed-in user as shown to the caller.
#[derive(Debug)]
pub struct User {
    pub id: String,
    pub email: String,
    /// The part of the email before the first `@`.
    pub name: String,
    pub avatar: Option<String>,
    pub provider: String,
}

impl Clone for User {
    /// A clone is equal to the original, field for field.
    fn clone(&self) -> (r: Self)
        ensures
            r == *self,
    {
        User {
            id: self.id.clone(),
            email: self.email.clone(),
            name: self.name.clone(),
            avatar: match &self.avatar {
                Some(a) => Some(a.clone()),
                None => None,
            },
            provider: self.provider.clone(),
        }
    }
}

/// The session state: the user and the current token set.
pub struct AuthState {
    pub user: Option<User>,
    pub csrf_token: Option<String>,
    pub access_token: Option<String>,
    pub refresh_token: Option<String>,
}

impl AuthState {
    /// A signed-out session.
    pub fn new() -> (r: AuthState)
        ensures
            r.user is None,
            r.csrf_token is None,
            r.access_token is None,
            r.refresh_token is None,
    {
        AuthState { user: None, csrf_token: None, access_token: None, refresh_token: None }
    }

    /// The signed-in user, if any.
    pub fn get_current_user(&self) -> (r: Option<User>)
        ensures
            r == self.user,
    {
        match &self.user {
            Some(u) => Some(u.clone()),
            None => None,
        }
    }

    /// Sign out: the user, the csrf token and the access token are cleared;
    /// the refresh token stays, as the caller may still revoke it.
    pub fn logout(&mut self)
        ensures
            final(self).user is None,
            final(self).csrf_token is None,
            final(self).access_token is None,
            final(self).refresh_token == old(self).refresh_token,
    {
        self.user = None;
        self.csrf_token = None;
        self.access_token = None;
    }

    /// Record a successful login: a fresh user built from the email, and the
    /// new token pair; a stored csrf token stays.
    pub fn record_login(
        &mut self,
        email: &str,
        provider: &str,
        access_token: &str,
        refresh_token: &str,
    )
        ensures
            final(self).user matches Some(u) && u.email@ == email@ && u.name@ == local_part_spec(
                email@,
            ) && u.provider@ == provider@ && u.avatar is None && u.id@.len() == 36,
            final(self).access_token matches Some(a) && a@ == access_token@,
            final(self).refresh_token matches Some(t) && t@ == refresh_token@,
            final(self).csrf_token == old(self).csrf_token,
    {
        let user = User {
            id: new_uuid(),
            email: email.to_owned(),
            name: email_local_part(email),
            avatar: None,
            provider: provider.to_owned(),
        };
        self.user = Some(user);
        self.access_token = Some(access_token.to_owned());
        self.refresh_token = Some(refresh_token.to_owned());
    }
}

/// The pending redirect-correlated login of the command layer: what the
/// callback handler needs to finish it.
#[derive(Debug)]
pub struct PendingLogin {
    pub provider: String,
    pub code_verifier: String,
    pub state: String,
    pub machineid: String,
}

impl Clone for PendingLogin {
    /// A clone is equal to the original, field for field.
    fn clone(&self) -> (r: Self)
        ensures
            r == *self,
    {
        PendingLogin {
            provider: self.provider.clone(),
            code_verifier: self.code_verifier.clone(),
            state: self.state.clone(),
            machineid: self.machineid.clone(),
        }
    }
}

/// Check a callback's state against the pending login's: a mismatch is a
/// possible forged callback and aborts the login.
pub fn check_pending_state(pending: &PendingLogin, callback_state: &String) -> (r: Result<
    (),
    AuthError,
>)
    ensures
        pending.state@ == callback_state@ <==> r is Ok,
        pending.state@ != callback_state@ <==> (r matches Err(AuthError::StateMismatch)),
{
    if pending.state.eq(callback_state) {
        Ok(())
    } else {
        Err(AuthError::StateMismatch)
    }
}

/// The characters of a string before its first `@`, or all of them when it
/// has none.
pub open spec fn local_part_spec(s: Seq<char>) -> Seq<char>
    decreases s.len(),
{
    if s.len() == 0 {
        s
    } else if s[0] == '@' {
        Seq::empty()
    } else {
        seq![s[0]] + local_part_spec(s.drop_first())
    }
}

/// The prefix before the first `@` is the local part.
proof fn lemma_local_part_prefix(s: Seq<char>, cut: int)
    requires
        0 <= cut <= s.len(),
        forall|j: int| 0 <= j < cut ==> s[j] != '@',
        cut < s.len() ==> s[cut] == '@',
    ensures
        local_part_spec(s) == s.subrange(0, cut),
    decreases cut,
{
    if cut == 0 {
        if s.len() == 0 {
            assert(s.subrange(0, 0) =~= s);
        } else {
            assert(s[0] == '@');
            assert(s.subrange(0, 0) =~= Seq::<char>::empty());
        }
    } else {
        assert(s[0] != '@');
        let rest = s.drop_first();
        assert forall|j: int| 0 <= j < cut - 1 implies rest[j] != '@' by {
            assert(rest[j] == s[j + 1]);
        }
        if cut - 1 < rest.len() {
            assert(rest[cut - 1] == s[cut]);
        }
        lemma_local_part_prefix(rest, cut - 1);
        assert(seq![s[0]] + rest.subrange(0, cut - 1) =~= s.subrange(0, cut));
    }
}

/// The part of an email before its first `@`, used as a display name.
pub fn email_local_part(email: &str) -> (r: String)
    ensures
        r@ == local_part_spec(email@),
{
    let len = email.unicode_len();
    for i in 0..len
        invariant
            len == email@.len(),
            forall|j: int| 0 <= j < i ==> email@[j] != '@',
    {
        if email.get_char(i) == '@' {
            proof {
                lemma_local_part_prefix(email@, i as int);
            }
            let part = email.substring_char(0, i);
            return part.to_owned();
        }
    }
    proof {
        lemma_local_part_prefix(email@, len as int);
    }
    let part = email.substring_char(0, len);
    part.to_owned()
}

} // verus!
