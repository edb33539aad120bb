//! Correlation of an out-of-band redirect callback with the login that waits
//! for it.
//!
//! A login registers a waiter carrying the state token it generated; the
//! redirect handler parses the incoming link, ignores links of other schemes
//! so other listeners may process them, and resolves the waiter with either
//! the authorization code or an error. A state token that differs from the
//! registered one is treated as a possible forged callback: it resolves the
//! waiter with `StateMismatch` and never yields a code.

use crate::errors::AuthError;
use crate::util::string_eq;
use vstd::prelude::*;

verus! {

/// The custom-scheme redirect target the identity backend sends the browser
/// back to.
pub open spec fn redirect_uri_spec() -> Seq<char> {
    "kiro://kiro.kiroAgent/authenticate-success"@
}

/// A successful callback: the authorization code and the returned state.
#[derive(Debug, Clone)]
pub struct OAuthCallbackResult {
    pub code: String,
    pub state: String,
}

/// The rendezvous for one login attempt: at most one is outstanding at a
/// time, and delivering to it consumes it.
pub struct DeepLinkCallbackWaiter {
    /// The state token the login generated in step one.
    pub expected_state: String,
    /// Whether a delivery is still awaited.
    pub pending: bool,
    /// The delivered outcome, once a link resolved this waiter.
    pub outcome: Option<Result<OAuthCallbackResult, AuthError>>,
    /// Whether the waiting side has already taken the outcome.
    pub consumed: bool,
}

/// Register a waiter for a login that generated `state`. Registration starts
/// a fresh rendezvous: any stale earlier waiter is simply dropped by the
/// caller, which is why only one login may run at a time.
pub fn register_waiter(state: &String) -> (r: DeepLinkCallbackWaiter)
    ensures
        r.expected_state@ == state@,
        r.pending,
        r.outcome is None,
        !r.consumed,
{
    DeepLinkCallbackWaiter {
        expected_state: state.clone(),
        pending: true,
        outcome: None,
        consumed: false,
    }
}

impl DeepLinkCallbackWaiter {
    /// The redirect target to hand to the identity backend.
    pub fn get_redirect_uri() -> (r: String)
        ensures
            r@ == redirect_uri_spec(),
    {
        String::from_str("kiro://kiro.kiroAgent/authenticate-success")
    }

    /// Take the delivered outcome.
    ///
    /// The waiting side blocks with a deadline; a waiter whose outcome was
    /// never delivered has timed out, which surfaces as `CallbackTimeout`.
    /// Taking the outcome twice is a caller error, `CallbackConsumed`.
    pub fn wait_for_callback(&mut self) -> (r: Result<OAuthCallbackResult, AuthError>)
        ensures
            final(self).expected_state == old(self).expected_state,
            final(self).pending == old(self).pending,
            final(self).consumed,
            final(self).outcome is None,
            old(self).consumed ==> r matches Err(AuthError::CallbackConsumed),
            !old(self).consumed ==> match old(self).outcome {
                Some(delivered) => r == delivered,
                None => r matches Err(AuthError::CallbackTimeout),
            },
    {
        if self.consumed {
            self.outcome = None;
            return Err(AuthError::CallbackConsumed);
        }
        self.consumed = true;
        match self.outcome.take() {
            Some(delivered) => delivered,
            None => Err(AuthError::CallbackTimeout),
        }
    }
}

/// What url's parser makes of a link: its scheme and its decoded query
/// pairs, in order.
pub uninterp spec fn url_parse_of(s: Seq<char>) -> Option<
    (Seq<char>, Seq<(Seq<char>, Seq<char>)>),
>;

/// A parsed link: the scheme and the decoded query pairs, in order.
pub struct ParsedCallbackUrl {
    pub scheme: String,
    pub params: Vec<(String, String)>,
}

/// The views of a list of string pairs.
pub open spec fn pairs_view(params: Seq<(String, String)>) -> Seq<(Seq<char>, Seq<char>)> {
    params.map_values(|p: (String, String)| (p.0@, p.1@))
}

/// Relies on url's `Url::parse`, `scheme` and `query_pairs`: both depend on
/// the link text alone.
#[verifier::external_body]
pub(crate) fn parse_callback_url(s: &str) -> (r: Option<ParsedCallbackUrl>)
    ensures
        match r {
            Some(u) => url_parse_of(s@) == Some((u.scheme@, pairs_view(u.params@))),
            None => url_parse_of(s@) is None,
        },
{
    match url::Url::parse(s) {
        Ok(u) => {
            let scheme = u.scheme().to_string();
            let params = u.query_pairs().map(|(k, v)| (k.to_string(), v.to_string())).collect();
            Some(ParsedCallbackUrl { scheme, params })
        },
        Err(_) => None,
    }
}

/// The value of the first query pair with this key.
pub open spec fn lookup_spec(params: Seq<(Seq<char>, Seq<char>)>, key: Seq<char>) -> Option<
    Seq<char>,
>
    decreases params.len(),
{
    if params.len() == 0 {
        None
    } else if params[0].0 == key {
        Some(params[0].1)
    } else {
        lookup_spec(params.drop_first(), key)
    }
}

/// Find the first query pair whose key equals `key`.
pub(crate) fn lookup_param(params: &Vec<(String, String)>, key: &String) -> (r: Option<String>)
    ensures
        match r {
            Some(v) => lookup_spec(pairs_view(params@), key@) == Some(v@),
            None => lookup_spec(pairs_view(params@), key@) is None,
        },
{
    let ghost pv = pairs_view(params@);
    proof {
        assert(pv.skip(0) =~= pv);
    }
    let n = params.len();
    for i in 0..n
        invariant
            n == params@.len(),
            pv == pairs_view(params@),
            pv.len() == n,
            forall|j: int| 0 <= j < pv.len() ==> #[trigger] pv[j] == (params@[j].0@, params@[j].1@),
            lookup_spec(pv, key@) == lookup_spec(pv.skip(i as int), key@),
    {
        proof {
            assert(pv.skip(i as int)[0] == pv[i as int]);
            assert(pv.skip(i as int).drop_first() =~= pv.skip(i + 1));
        }
        if string_pair_key_eq(&params[i], key) {
            return Some(params[i].1.clone());
        }
    }
    proof {
        assert(pv.skip(n as int) =~= Seq::<(Seq<char>, Seq<char>)>::empty());
    }
    None
}

/// Whether a query pair's key equals `key`, decided on characters.
fn string_pair_key_eq(pair: &(String, String), key: &String) -> (r: bool)
    ensures
        r == (pair.0@ == key@),
{
    pair.0.eq(key)
}

/// Process one incoming deep link against the registered waiter.
///
/// Links of another scheme are not handled and leave the waiter registered.
/// A link of the callback scheme always resolves the waiter: with the
/// backend's reported error, with a complaint about a missing parameter,
/// with `StateMismatch` when the returned state differs from the registered
/// one, or with the code. The return value says whether this handler claimed
/// the link. A successful code is delivered exactly when the link carried no
/// error, a code, and the registered state.
pub fn handle_deep_link(waiter: &mut DeepLinkCallbackWaiter, url: &str) -> (handled: bool)
    ensures
        final(waiter).expected_state == old(waiter).expected_state,
        final(waiter).consumed == old(waiter).consumed,
        !old(waiter).pending ==> !handled && *final(waiter) == *old(waiter),
        old(waiter).pending ==> match url_parse_of(url@) {
            None => {
                &&& !handled
                &&& !final(waiter).pending
                &&& final(waiter).outcome matches Some(Err(AuthError::CallbackFailed(_)))
            },
            Some(parts) => {
                let scheme = parts.0;
                let params = parts.1;
                if scheme != "kiro"@ {
                    !handled && *final(waiter) == *old(waiter)
                } else {
                    &&& handled
                    &&& !final(waiter).pending
                    &&& match final(waiter).outcome {
                        Some(delivered) => callback_outcome_ok(
                            delivered,
                            params,
                            old(waiter).expected_state@,
                        ),
                        None => false,
                    }
                }
            },
        },
{
    if !waiter.pending {
        return false;
    }
    let parsed = parse_callback_url(url);
    match parsed {
        None => {
            waiter.pending = false;
            waiter.outcome = Some(Err(AuthError::CallbackFailed(String::from_str("invalid url"))));
            false
        },
        Some(u) => {
            let kiro = String::from_str("kiro");
            if !string_eq(&u.scheme, &kiro) {
                proof {
                    reveal_strlit("kiro");
                }
                return false;
            }
            proof {
                reveal_strlit("kiro");
            }
            waiter.pending = false;
            let error_key = String::from_str("error");
            let desc_key = String::from_str("error_description");
            let code_key = String::from_str("code");
            let state_key = String::from_str("state");
            if let Some(err) = lookup_param(&u.params, &error_key) {
                let mut message = String::from_str("backend reported ");
                message.append(err.as_str());
                if let Some(desc) = lookup_param(&u.params, &desc_key) {
                    message.append(": ");
                    message.append(desc.as_str());
                }
                waiter.outcome = Some(Err(AuthError::CallbackFailed(message)));
                return true;
            }
            let code = match lookup_param(&u.params, &code_key) {
                Some(c) => c,
                None => {
                    waiter.outcome = Some(
                        Err(AuthError::CallbackFailed(String::from_str("missing code parameter"))),
                    );
                    return true;
                },
            };
            let state = match lookup_param(&u.params, &state_key) {
                Some(st) => st,
                None => {
                    waiter.outcome = Some(
                        Err(AuthError::CallbackFailed(String::from_str("missing state parameter"))),
                    );
                    return true;
                },
            };
            if !string_eq(&state, &waiter.expected_state) {
                waiter.outcome = Some(Err(AuthError::StateMismatch));
                return true;
            }
            waiter.outcome = Some(Ok(OAuthCallbackResult { code, state }));
            true
        },
    }
}

/// What a delivered outcome must look like for a callback-scheme link whose
/// query pairs are `params`, registered under `expected`.
pub open spec fn callback_outcome_ok(
    delivered: Result<OAuthCallbackResult, AuthError>,
    params: Seq<(Seq<char>, Seq<char>)>,
    expected: Seq<char>,
) -> bool {
    let error = lookup_spec(params, "error"@);
    let code = lookup_spec(params, "code"@);
    let state = lookup_spec(params, "state"@);
    if error is Some {
        delivered matches Err(AuthError::CallbackFailed(_))
    } else if code is None {
        delivered matches Err(AuthError::CallbackFailed(_))
    } else if state is None {
        delivered matches Err(AuthError::CallbackFailed(_))
    } else if state != Some(expected) {
        delivered matches Err(AuthError::StateMismatch)
    } else {
        delivered matches Ok(res) && Some(res.code@) == code && res.state@ == expected
    }
}

/// Delivering a callback whose state differs from the registered one yields
/// `StateMismatch` and never a code: an outcome acceptable for such a link is
/// the state-mismatch error and nothing else.
pub proof fn lemma_state_mismatch_never_yields_token(
    delivered: Result<OAuthCallbackResult, AuthError>,
    params: Seq<(Seq<char>, Seq<char>)>,
    expected: Seq<char>,
)
    requires
        callback_outcome_ok(delivered, params, expected),
        lookup_spec(params, "error"@) is None,
        lookup_spec(params, "code"@) is Some,
        lookup_spec(params, "state"@) is Some,
        lookup_spec(params, "state"@) != Some(expected),
    ensures
        delivered matches Err(AuthError::StateMismatch),
        !(delivered is Ok),
{
}

} // verus!
