//! The durable collection of accounts.
//!
//! Accounts are deduplicated by the (email, provider) pair: a login for a pair
//! that is already stored overwrites the stored record's credential surface in
//! place, preserving its identifier and creation time. Import merges by
//! identifier and skips records whose identifier is already present, so
//! importing the same export twice changes nothing. Persistence of the
//! collection is the caller's concern; every operation here says exactly what
//! the collection looks like afterwards.

use crate::clock::now_unix;
use crate::util::clone_opt;
use crate::util::string_eq;
use crate::pkce::new_uuid;
use vstd::pervasive::VecAdditionalExecFns;
use vstd::prelude::*;

verus! {

/// Whether the backend currently accepts the account.
#[derive(Debug, Clone, Copy, PartialEq, Eq, Structural)]
pub enum AccountStatus {
    Active,
    Suspended,
}

/// One stored identity record: identity, credential surface, and an opaque
/// usage snapshot that this crate stores but never interprets.
#[derive(Debug)]
pub struct Account {
    /// Generated once when the record is created; never changed afterwards.
    pub id: String,
    pub email: String,
    pub label: String,
    pub status: AccountStatus,
    /// Unix seconds at which the record was created.
    pub added_at: i64,
    pub access_token: Option<String>,
    pub refresh_token: Option<String>,
    pub csrf_token: Option<String>,
    pub session_token: Option<String>,
    /// Absolute expiry of the access token, Unix seconds.
    pub expires_at: Option<i64>,
    pub provider: Option<String>,
    pub user_id: Option<String>,
    pub client_id: Option<String>,
    pub client_secret: Option<String>,
    pub region: Option<String>,
    pub client_id_hash: Option<String>,
    pub sso_session_id: Option<String>,
    pub id_token: Option<String>,
    pub profile_arn: Option<String>,
    /// Raw quota document from the backend, kept verbatim.
    pub usage_data: Option<String>,
}

/// The view of an optional string.
pub open spec fn opt_str(o: Option<String>) -> Option<Seq<char>> {
    match o {
        Some(s) => Some(s@),
        None => None,
    }
}

/// The view of an optional string, with a borrowed argument.
pub open spec fn opt_str_ref(o: &Option<String>) -> Option<Seq<char>> {
    opt_str(*o)
}

impl Account {
    /// The dedup key: the (email, provider) pair.
    pub open spec fn pair_key(self) -> (Seq<char>, Option<Seq<char>>) {
        (self.email@, opt_str(self.provider))
    }

    /// A fresh record for `email` with a generated identifier, created now,
    /// active, with every credential field empty.
    pub fn new(email: String, label: String) -> (r: Account)
        ensures
            r.email == email,
            r.label == label,
            r.status == AccountStatus::Active,
            r.id@.len() == 36,
            r.access_token is None,
            r.refresh_token is None,
            r.csrf_token is None,
            r.session_token is None,
            r.expires_at is None,
            r.provider is None,
            r.user_id is None,
            r.client_id is None,
            r.client_secret is None,
            r.region is None,
            r.client_id_hash is None,
            r.sso_session_id is None,
            r.id_token is None,
            r.profile_arn is None,
            r.usage_data is None,
    {
        Account {
            id: new_uuid(),
            email,
            label,
            status: AccountStatus::Active,
            added_at: now_unix(),
            access_token: None,
            refresh_token: None,
            csrf_token: None,
            session_token: None,
            expires_at: None,
            provider: None,
            user_id: None,
            client_id: None,
            client_secret: None,
            region: None,
            client_id_hash: None,
            sso_session_id: None,
            id_token: None,
            profile_arn: None,
            usage_data: None,
        }
    }
}

impl Clone for Account {
    /// A clone is equal to the original, field for field.
    fn clone(&self) -> (r: Self)
        ensures
            r == *self,
    {
        Account {
            id: self.id.clone(),
            email: self.email.clone(),
            label: self.label.clone(),
            status: self.status,
            added_at: self.added_at,
            access_token: clone_opt(&self.access_token),
            refresh_token: clone_opt(&self.refresh_token),
            csrf_token: clone_opt(&self.csrf_token),
            session_token: clone_opt(&self.session_token),
            expires_at: self.expires_at,
            provider: clone_opt(&self.provider),
            user_id: clone_opt(&self.user_id),
            client_id: clone_opt(&self.client_id),
            client_secret: clone_opt(&self.client_secret),
            region: clone_opt(&self.region),
            client_id_hash: clone_opt(&self.client_id_hash),
            sso_session_id: clone_opt(&self.sso_session_id),
            id_token: clone_opt(&self.id_token),
            profile_arn: clone_opt(&self.profile_arn),
            usage_data: clone_opt(&self.usage_data),
        }
    }
}

/// Equality of two optional strings, decided on their characters.
pub fn opt_string_eq(a: &Option<String>, b: &Option<String>) -> (r: bool)
    ensures
        r == (opt_str_ref(a) == opt_str_ref(b)),
{
    match (a, b) {
        (Some(x), Some(y)) => x.eq(y),
        (None, None) => true,
        _ => false,
    }
}

/// No two records share the (email, provider) pair.
pub open spec fn pairs_unique(s: Seq<Account>) -> bool {
    forall|i: int, j: int|
        0 <= i < j < s.len() ==> (#[trigger] s[i]).pair_key() != (#[trigger] s[j]).pair_key()
}

/// No two records share an identifier.
pub open spec fn ids_unique(s: Seq<Account>) -> bool {
    forall|i: int, j: int| 0 <= i < j < s.len() ==> (#[trigger] s[i]).id@ != (#[trigger] s[j]).id@
}

/// Some record carries this identifier.
pub open spec fn contains_id(s: Seq<Account>, id: Seq<char>) -> bool {
    exists|i: int| 0 <= i < s.len() && (#[trigger] s[i]).id@ == id
}

/// `i` is the first index whose record has this (email, provider) pair.
pub open spec fn is_first_pair_match(
    s: Seq<Account>,
    key: (Seq<char>, Option<Seq<char>>),
    i: int,
) -> bool {
    &&& 0 <= i < s.len()
    &&& s[i].pair_key() == key
    &&& forall|j: int| 0 <= j < i ==> (#[trigger] s[j]).pair_key() != key
}

/// At most one index is the first match for a pair.
pub proof fn lemma_first_match_unique(
    s: Seq<Account>,
    key: (Seq<char>, Option<Seq<char>>),
    i: int,
    j: int,
)
    requires
        is_first_pair_match(s, key, i),
        is_first_pair_match(s, key, j),
    ensures
        i == j,
{
    if i < j {
        assert(s[i].pair_key() == key);
    } else if j < i {
        assert(s[j].pair_key() == key);
    }
}

/// How `upsert` leaves the collection when a record with the incoming pair
/// already stood at (first) index `i`: that record is overwritten with the
/// merge, which is also returned.
pub open spec fn upsert_found_post(
    s: Seq<Account>,
    incoming: Account,
    r: Account,
    t: Seq<Account>,
    i: int,
) -> bool {
    &&& is_first_pair_match(s, incoming.pair_key(), i)
    &&& r == upsert_merge(s[i], incoming)
    &&& t == s.update(i, r)
}

/// What a record looks like after a login for its pair: the credential
/// surface comes from `incoming`, while the identifier and creation time of
/// `existing` survive.
pub open spec fn upsert_merge(existing: Account, incoming: Account) -> Account {
    Account { id: existing.id, added_at: existing.added_at, ..incoming }
}

/// What the collection holds after merging `records` one by one, skipping
/// every record whose identifier is already present.
pub open spec fn import_spec(s: Seq<Account>, records: Seq<Account>) -> Seq<Account>
    decreases records.len(),
{
    if records.len() == 0 {
        s
    } else {
        let next = if contains_id(s, records[0].id@) {
            s
        } else {
            s.push(records[0])
        };
        import_spec(next, records.drop_first())
    }
}

/// The in-memory collection of accounts. The caller persists it after every
/// mutating call; a persistence failure does not roll the mutation back.
pub struct AccountStore {
    pub accounts: Vec<Account>,
}

impl AccountStore {
    /// An empty store.
    pub fn new() -> (r: AccountStore)
        ensures
            r.accounts@ == Seq::<Account>::empty(),
    {
        AccountStore { accounts: Vec::new() }
    }

    /// A store over records the caller loaded from durable storage.
    pub fn from_accounts(accounts: Vec<Account>) -> (r: AccountStore)
        ensures
            r.accounts@ == accounts@,
    {
        AccountStore { accounts }
    }

    /// The index of the first record with this (email, provider) pair.
    pub fn find_by_pair(&self, email: &String, provider: &Option<String>) -> (r: Option<usize>)
        ensures
            match r {
                Some(i) => 0 <= i < self.accounts@.len()
                    && self.accounts@[i as int].pair_key() == (email@, opt_str_ref(provider))
                    && forall|j: int|
                    0 <= j < i ==> (#[trigger] self.accounts@[j]).pair_key() != (
                    email@,
                    opt_str_ref(provider),
                    ),
                None => forall|j: int|
                    0 <= j < self.accounts@.len() ==> (#[trigger] self.accounts@[j]).pair_key()
                        != (email@, opt_str_ref(provider)),
            },
    {
        let n = self.accounts.len();
        for i in 0..n
            invariant
                n == self.accounts@.len(),
                forall|j: int|
                    0 <= j < i ==> (#[trigger] self.accounts@[j]).pair_key() != (
                    email@,
                    opt_str_ref(provider),
                    ),
        {
            let a = &self.accounts[i];
            if string_eq(&a.email, email) && opt_string_eq(&a.provider, provider) {
                return Some(i);
            }
        }
        None
    }

    /// The index of the record with this identifier.
    pub fn find_by_id(&self, id: &String) -> (r: Option<usize>)
        ensures
            match r {
                Some(i) => 0 <= i < self.accounts@.len() && self.accounts@[i as int].id@ == id@
                    && forall|j: int| 0 <= j < i ==> (#[trigger] self.accounts@[j]).id@ != id@,
                None => forall|j: int|
                    0 <= j < self.accounts@.len() ==> (#[trigger] self.accounts@[j]).id@ != id@,
            },
    {
        let n = self.accounts.len();
        for i in 0..n
            invariant
                n == self.accounts@.len(),
                forall|j: int| 0 <= j < i ==> (#[trigger] self.accounts@[j]).id@ != id@,
        {
            if string_eq(&self.accounts[i].id, id) {
                return Some(i);
            }
        }
        None
    }

    /// Merge one login or refresh result into the collection.
    ///
    /// If a record with `incoming`'s (email, provider) pair exists, its
    /// credential surface is overwritten in place while its identifier and
    /// creation time survive; otherwise `incoming` itself is inserted at the
    /// front. Either way the record as stored is returned, and a collection
    /// without duplicate pairs stays without duplicate pairs.
    pub fn upsert(&mut self, incoming: Account) -> (r: Account)
        ensures
            ({
                let s = old(self).accounts@;
                let key = incoming.pair_key();
                if exists|i: int| 0 <= i < s.len() && (#[trigger] s[i]).pair_key() == key {
                    exists|i: int| #[trigger]
                        upsert_found_post(s, incoming, r, final(self).accounts@, i)
                } else {
                    r == incoming && final(self).accounts@ == seq![incoming] + s
                }
            }),
            pairs_unique(old(self).accounts@) ==> pairs_unique(final(self).accounts@),
    {
        let ghost s = self.accounts@;
        let ghost key = incoming.pair_key();
        match self.find_by_pair(&incoming.email, &incoming.provider) {
            Some(i) => {
                let existing = &self.accounts[i];
                let merged = Account {
                    id: existing.id.clone(),
                    added_at: existing.added_at,
                    ..incoming
                };
                assert(merged == upsert_merge(s[i as int], incoming));
                let r = merged.clone();
                self.accounts.set(i, merged);
                proof {
                    assert(upsert_found_post(s, incoming, r, self.accounts@, i as int));
                    if pairs_unique(s) {
                        assert forall|x: int, y: int|
                            0 <= x < y < self.accounts@.len() implies (
                        #[trigger] self.accounts@[x]).pair_key() != (
                        #[trigger] self.accounts@[y]).pair_key() by {
                            assert(s[x].pair_key() != s[y].pair_key());
                            assert(self.accounts@[x].pair_key() == s[x].pair_key());
                            assert(self.accounts@[y].pair_key() == s[y].pair_key());
                        }
                    }
                }
                r
            },
            None => {
                let r = incoming.clone();
                self.accounts.insert(0, incoming);
                proof {
                    assert(self.accounts@ =~= seq![incoming] + s);
                    if pairs_unique(s) {
                        assert forall|x: int, y: int|
                            0 <= x < y < self.accounts@.len() implies (
                        #[trigger] self.accounts@[x]).pair_key() != (
                        #[trigger] self.accounts@[y]).pair_key() by {
                            if 0 < x {
                                assert(self.accounts@[x] == s[x - 1]);
                                assert(self.accounts@[y] == s[y - 1]);
                            } else {
                                assert(self.accounts@[y] == s[y - 1]);
                                assert(self.accounts@[0] == incoming);
                            }
                        }
                    }
                }
                r
            },
        }
    }

    /// Every stored record, in order.
    pub fn get_all(&self) -> (r: Vec<Account>)
        ensures
            r@ == self.accounts@,
    {
        clone_accounts(&self.accounts)
    }

    /// Remove the record with this identifier; true exactly when one was
    /// removed. Afterwards the collection holds, in order, exactly the
    /// records whose identifier differs.
    pub fn delete(&mut self, id: &String) -> (deleted: bool)
        ensures
            final(self).accounts@ == old(self).accounts@.filter(|a: Account| a.id@ != id@),
            deleted == (final(self).accounts@.len() < old(self).accounts@.len()),
    {
        let ghost s = self.accounts@;
        let n = self.accounts.len();
        let mut kept: Vec<Account> = Vec::new();
        for i in 0..n
            invariant
                n == s.len(),
                self.accounts@ == s,
                kept@ == s.subrange(0, i as int).filter(|a: Account| a.id@ != id@),
        {
            proof {
                assert(s.subrange(0, i + 1).drop_last() =~= s.subrange(0, i as int));
                reveal(Seq::filter);
            }
            let a = &self.accounts[i];
            if !string_eq(&a.id, id) {
                kept.push(a.clone());
            }
        }
        proof {
            assert(s.subrange(0, n as int) =~= s);
            s.lemma_filter_len(|a: Account| a.id@ != id@);
        }
        let deleted = kept.len() < self.accounts.len();
        self.accounts = kept;
        deleted
    }

    /// Remove every record whose identifier is listed; the count removed is
    /// returned.
    pub fn delete_many(&mut self, ids: &Vec<String>) -> (removed: usize)
        ensures
            final(self).accounts@ == old(self).accounts@.filter(
                |a: Account| !contains_string(ids@, a.id@),
            ),
            removed == old(self).accounts@.len() - final(self).accounts@.len(),
    {
        let ghost s = self.accounts@;
        let n = self.accounts.len();
        let mut kept: Vec<Account> = Vec::new();
        for i in 0..n
            invariant
                n == s.len(),
                self.accounts@ == s,
                kept@ == s.subrange(0, i as int).filter(
                    |a: Account| !contains_string(ids@, a.id@),
                ),
        {
            proof {
                assert(s.subrange(0, i + 1).drop_last() =~= s.subrange(0, i as int));
                reveal(Seq::filter);
            }
            let a = &self.accounts[i];
            if !vec_contains_string(ids, &a.id) {
                kept.push(a.clone());
            }
        }
        proof {
            assert(s.subrange(0, n as int) =~= s);
            s.lemma_filter_len(|a: Account| !contains_string(ids@, a.id@));
        }
        let removed = self.accounts.len() - kept.len();
        self.accounts = kept;
        removed
    }

    /// Merge records into the collection, skipping each whose identifier is
    /// already present (also one made present by an earlier record of this
    /// same batch). Returns how many records the input held, as the caller
    /// reports that number whether or not each was new.
    pub fn import(&mut self, records: Vec<Account>) -> (count: usize)
        ensures
            final(self).accounts@ == import_spec(old(self).accounts@, records@),
            count == records@.len(),
    {
        let ghost start = self.accounts@;
        let n = records.len();
        for i in 0..n
            invariant
                n == records@.len(),
                self.accounts@ == import_spec(start, records@.take(i as int)),
        {
            let rec = records[i].clone();
            proof {
                lemma_import_spec_snoc(start, records@.take(i as int), records@[i as int]);
                assert(records@.take(i as int).push(records@[i as int]) =~= records@.take(
                    i + 1,
                ));
            }
            if self.find_by_id(&rec.id).is_none() {
                assert(!contains_id(self.accounts@, rec.id@));
                self.accounts.push(rec);
            } else {
                assert(contains_id(self.accounts@, rec.id@));
            }
        }
        proof {
            assert(records@.take(n as int) =~= records@);
        }
        n
    }

    /// Every stored record whose identifier is listed, in order.
    pub fn export_selected(&self, ids: &Vec<String>) -> (r: Vec<Account>)
        ensures
            r@ == self.accounts@.filter(|a: Account| contains_string(ids@, a.id@)),
    {
        let ghost s = self.accounts@;
        let n = self.accounts.len();
        let mut picked: Vec<Account> = Vec::new();
        for i in 0..n
            invariant
                n == s.len(),
                self.accounts@ == s,
                picked@ == s.subrange(0, i as int).filter(
                    |a: Account| contains_string(ids@, a.id@),
                ),
        {
            proof {
                assert(s.subrange(0, i + 1).drop_last() =~= s.subrange(0, i as int));
                reveal(Seq::filter);
            }
            let a = &self.accounts[i];
            if vec_contains_string(ids, &a.id) {
                picked.push(a.clone());
            }
        }
        proof {
            assert(s.subrange(0, n as int) =~= s);
        }
        picked
    }
}

/// Some string of the sequence has these characters.
pub open spec fn contains_string(v: Seq<String>, s: Seq<char>) -> bool {
    exists|i: int| 0 <= i < v.len() && (#[trigger] v[i])@ == s
}

/// Whether some element of `v` equals `s`, decided on characters.
pub fn vec_contains_string(v: &Vec<String>, s: &String) -> (r: bool)
    ensures
        r == contains_string(v@, s@),
{
    let n = v.len();
    for i in 0..n
        invariant
            n == v@.len(),
            forall|j: int| 0 <= j < i ==> (#[trigger] v@[j])@ != s@,
    {
        if string_eq(&v[i], s) {
            return true;
        }
    }
    false
}

/// Merging one more record behaves like merging the batch and then that
/// record alone: it is appended exactly when its identifier is still absent.
pub proof fn lemma_import_spec_snoc(s: Seq<Account>, r: Seq<Account>, x: Account)
    ensures
        import_spec(s, r.push(x)) == if contains_id(import_spec(s, r), x.id@) {
            import_spec(s, r)
        } else {
            import_spec(s, r).push(x)
        },
    decreases r.len(),
{
    let rx = r.push(x);
    if r.len() == 0 {
        assert(rx[0] == x);
        assert(rx.drop_first() =~= Seq::<Account>::empty());
        let next = if contains_id(s, x.id@) {
            s
        } else {
            s.push(x)
        };
        assert(import_spec(s, rx) == import_spec(next, rx.drop_first()));
        assert(import_spec(next, rx.drop_first()) == next);
        assert(import_spec(s, r) == s);
    } else {
        assert(rx[0] == r[0]);
        let next = if contains_id(s, r[0].id@) {
            s
        } else {
            s.push(r[0])
        };
        assert(rx.drop_first() =~= r.drop_first().push(x));
        assert(import_spec(s, rx) == import_spec(next, rx.drop_first()));
        assert(import_spec(s, r) == import_spec(next, r.drop_first()));
        lemma_import_spec_snoc(next, r.drop_first(), x);
    }
}

/// An identifier already present stays present through a merge.
pub proof fn lemma_import_keeps_id(s: Seq<Account>, r: Seq<Account>, id: Seq<char>)
    requires
        contains_id(s, id),
    ensures
        contains_id(import_spec(s, r), id),
    decreases r.len(),
{
    if r.len() > 0 {
        let next = if contains_id(s, r[0].id@) {
            s
        } else {
            s.push(r[0])
        };
        let i = choose|i: int| 0 <= i < s.len() && (#[trigger] s[i]).id@ == id;
        assert(next[i].id@ == id);
        lemma_import_keeps_id(next, r.drop_first(), id);
    }
}

/// After a merge, the identifier of every merged record is present.
pub proof fn lemma_import_adds_ids(s: Seq<Account>, r: Seq<Account>)
    ensures
        forall|k: int|
            0 <= k < r.len() ==> contains_id(import_spec(s, r), (#[trigger] r[k]).id@),
    decreases r.len(),
{
    if r.len() > 0 {
        let next = if contains_id(s, r[0].id@) {
            s
        } else {
            s.push(r[0])
        };
        if !contains_id(s, r[0].id@) {
            assert(next[s.len() as int].id@ == r[0].id@);
        }
        lemma_import_keeps_id(next, r.drop_first(), r[0].id@);
        lemma_import_adds_ids(next, r.drop_first());
        assert forall|k: int|
            0 <= k < r.len() implies contains_id(import_spec(s, r), (#[trigger] r[k]).id@) by {
            if k > 0 {
                assert(r.drop_first()[k - 1] == r[k]);
            }
        }
    }
}

/// Merging records whose identifiers are all present already changes nothing.
pub proof fn lemma_import_noop_when_present(s: Seq<Account>, r: Seq<Account>)
    requires
        forall|k: int| 0 <= k < r.len() ==> contains_id(s, (#[trigger] r[k]).id@),
    ensures
        import_spec(s, r) == s,
    decreases r.len(),
{
    if r.len() > 0 {
        assert(contains_id(s, r[0].id@));
        assert forall|k: int|
            0 <= k < r.drop_first().len() implies contains_id(
            s,
            (#[trigger] r.drop_first()[k]).id@,
        ) by {
            assert(r.drop_first()[k] == r[k + 1]);
        }
        lemma_import_noop_when_present(s, r.drop_first());
    }
}

/// Importing the same batch twice leaves the collection exactly as one
/// import left it; in particular the account count does not change.
pub proof fn lemma_import_idempotent(s: Seq<Account>, r: Seq<Account>)
    ensures
        import_spec(import_spec(s, r), r) == import_spec(s, r),
{
    lemma_import_adds_ids(s, r);
    lemma_import_noop_when_present(import_spec(s, r), r);
}

/// Merging records with pairwise distinct identifiers, none of which is
/// present, appends them all in order.
pub proof fn lemma_import_rebuilds(p: Seq<Account>, r: Seq<Account>)
    requires
        ids_unique(p + r),
    ensures
        import_spec(p, r) == p + r,
    decreases r.len(),
{
    if r.len() == 0 {
        assert(p + r =~= p);
    } else {
        assert(!contains_id(p, r[0].id@)) by {
            if contains_id(p, r[0].id@) {
                let i = choose|i: int| 0 <= i < p.len() && (#[trigger] p[i]).id@ == r[0].id@;
                assert((p + r)[i].id@ == (p + r)[p.len() as int].id@);
            }
        }
        let p2 = p.push(r[0]);
        assert(p2 + r.drop_first() =~= p + r);
        lemma_import_rebuilds(p2, r.drop_first());
        assert(import_spec(p, r) == import_spec(p2, r.drop_first()));
        assert(import_spec(p, r) =~= p + r);
    }
}

/// Exporting every account and importing the export into an empty store
/// reconstructs the same records, in the same order.
pub proof fn lemma_export_import_roundtrip(r: Seq<Account>)
    requires
        ids_unique(r),
    ensures
        import_spec(Seq::<Account>::empty(), r) == r,
{
    assert(Seq::<Account>::empty() + r =~= r);
    lemma_import_rebuilds(Seq::<Account>::empty(), r);
}

/// Copy a list of accounts, element for element.
pub fn clone_accounts(v: &Vec<Account>) -> (r: Vec<Account>)
    ensures
        r@ == v@,
{
    let n = v.len();
    let mut out: Vec<Account> = Vec::new();
    for i in 0..n
        invariant
            n == v@.len(),
            out@ == v@.subrange(0, i as int),
    {
        out.push(v[i].clone());
        proof {
            assert(out@ =~= v@.subrange(0, i + 1));
        }
    }
    proof {
        assert(v@.subrange(0, n as int) =~= v@);
    }
    out
}

} // verus!
