use vstd::prelude::*;

use crate::bytes::eq_bytes;
use crate::custodian::{same_custodial, CustodialAgentKey, UserAuthKey};

verus! {

/// The errors of the credential matching contract. `NotFound` deliberately
/// covers every authentication and recovery failure — unknown account,
/// unknown label, or a mismatched secret — so that a response never tells
/// an attacker which of the three it was.
#[derive(Debug, Clone, Copy, PartialEq, Eq, Structural)]
pub enum CredentialError {
    AlreadyExists,
    EmptyEntryList,
    NotFound,
    SessionInvalid,
}

/// One labeled recovery entry: a label naming the recovery method, the
/// authentication secret that proves a claim to it, and the custodial
/// record it unlocks.
#[derive(Debug)]
pub struct KeyRecord {
    pub label: String,
    pub user_auth_key: UserAuthKey,
    pub custodial_key: CustodialAgentKey,
}

/// One candidate claim to a labeled entry.
#[derive(Debug)]
pub struct AuthQuery {
    pub label: String,
    pub user_auth_key: UserAuthKey,
}

/// A successful claim: the label that matched and a copy of its custodial
/// record.
#[derive(Debug)]
pub struct AuthMatch {
    pub label: String,
    pub custodial_key: CustodialAgentKey,
}

/// Proof of a prior successful registration or authentication, consumed
/// by `set_keys`. Expiry is a concern of the surrounding transport, not of
/// this contract.
#[derive(Debug)]
pub struct Session {
    pub uid: String,
}

/// One account: its id, a display name, and its labeled entries in
/// insertion order.
#[derive(Debug)]
pub struct UserRecord {
    pub uid: String,
    pub name: String,
    pub keys: Vec<KeyRecord>,
}

/// An in-memory store satisfying the credential matching contract that a
/// custodian must implement.
#[derive(Debug)]
pub struct CredentialStore {
    pub users: Vec<UserRecord>,
}

/// No two entries carry the same label.
pub open spec fn distinct_labels(keys: Seq<KeyRecord>) -> bool {
    forall|i: int, j: int| 0 <= i < j < keys.len() ==> keys[i].label@ != keys[j].label@
}

/// An account is well-formed: at least one entry, all labels distinct.
pub open spec fn user_wf(u: UserRecord) -> bool {
    u.keys@.len() >= 1 && distinct_labels(u.keys@)
}

/// Whether some entry carries this label.
pub open spec fn has_label(keys: Seq<KeyRecord>, label: Seq<char>) -> bool {
    exists|i: int| 0 <= i < keys.len() && keys[i].label@ == label
}

/// The position of the entry carrying this label; under `distinct_labels`
/// there is at most one.
pub open spec fn label_index(keys: Seq<KeyRecord>, label: Seq<char>) -> int {
    choose|i: int| 0 <= i < keys.len() && keys[i].label@ == label
}

/// The entry carrying this label; under `distinct_labels` there is at most
/// one.
pub open spec fn key_of(keys: Seq<KeyRecord>, label: Seq<char>) -> KeyRecord {
    keys[label_index(keys, label)]
}

/// Whether some account carries this id.
pub open spec fn has_uid(users: Seq<UserRecord>, uid: Seq<char>) -> bool {
    exists|i: int| 0 <= i < users.len() && users[i].uid@ == uid
}

/// The account carrying this id; under the store invariant there is at
/// most one.
pub open spec fn user_of(users: Seq<UserRecord>, uid: Seq<char>) -> UserRecord {
    users[choose|i: int| 0 <= i < users.len() && users[i].uid@ == uid]
}

/// Whether a claim matches an account's entries: its label names an entry
/// and its secret equals that entry's stored secret, byte for byte.
pub open spec fn auth_matches(keys: Seq<KeyRecord>, label: Seq<char>, auth: Seq<u8>) -> bool {
    has_label(keys, label) && key_of(keys, label).user_auth_key.auth@ == auth
}

proof fn lemma_key_of_at(keys: Seq<KeyRecord>, label: Seq<char>, i: int)
    requires
        distinct_labels(keys),
        0 <= i < keys.len(),
        keys[i].label@ == label,
    ensures
        has_label(keys, label),
        label_index(keys, label) == i,
        key_of(keys, label) == keys[i],
{
    assert(has_label(keys, label));
    let j = choose|j: int| 0 <= j < keys.len() && keys[j].label@ == label;
    if i != j {
        assert(keys[i].label@ != keys[j].label@);
    }
}

proof fn lemma_user_of_at(users: Seq<UserRecord>, uid: Seq<char>, i: int)
    requires
        forall|a: int, b: int| 0 <= a < b < users.len() ==> users[a].uid@ != users[b].uid@,
        0 <= i < users.len(),
        users[i].uid@ == uid,
    ensures
        has_uid(users, uid),
        user_of(users, uid) == users[i],
{
    assert(has_uid(users, uid));
    let j = choose|j: int| 0 <= j < users.len() && users[j].uid@ == uid;
    if i != j {
        assert(users[i].uid@ != users[j].uid@);
    }
}

impl CredentialStore {
    /// Account ids are unique and every account is well-formed.
    pub open spec fn wf(&self) -> bool {
        &&& forall|i: int, j: int|
            0 <= i < j < self.users@.len() ==> self.users@[i].uid@ != self.users@[j].uid@
        &&& forall|i: int| 0 <= i < self.users@.len() ==> user_wf(self.users@[i])
    }

    /// An empty store, with no accounts.
    pub fn new() -> (r: CredentialStore)
        ensures
            r.wf(),
            r.users@.len() == 0,
    {
        CredentialStore { users: Vec::new() }
    }

    fn find_user(&self, uid: &String) -> (r: Option<usize>)
        ensures
            r matches Some(i) ==> 0 <= i < self.users@.len() && self.users@[i as int].uid@ == uid@,
            r is None ==> !has_uid(self.users@, uid@),
    {
        let n = self.users.len();
        for i in 0..n
            invariant
                n == self.users@.len(),
                forall|j: int| 0 <= j < i ==> self.users@[j].uid@ != uid@,
        {
            if self.users[i].uid == *uid {
                return Some(i);
            }
        }
        None
    }

    /// Register a new account. Fails with `EmptyEntryList` when no entry
    /// is supplied, with `AlreadyExists` when the id is taken; otherwise
    /// appends the account and returns a session bound to it. The store is
    /// unchanged on every failure.
    pub fn register(&mut self, uid: String, name: String, keys: Vec<KeyRecord>) -> (r: Result<
        Session,
        CredentialError,
    >)
        requires
            old(self).wf(),
            distinct_labels(keys@),
        ensures
            final(self).wf(),
            r is Err <==> (keys@.len() == 0 || has_uid(old(self).users@, uid@)),
            keys@.len() == 0 ==> r == Err::<Session, CredentialError>(
                CredentialError::EmptyEntryList,
            ),
            keys@.len() > 0 && has_uid(old(self).users@, uid@) ==> r == Err::<
                Session,
                CredentialError,
            >(CredentialError::AlreadyExists),
            r is Err ==> final(self).users@ == old(self).users@,
            r is Ok ==> ({
                &&& final(self).users@.len() == old(self).users@.len() + 1
                &&& forall|i: int|
                    0 <= i < old(self).users@.len() ==> final(self).users@[i] == old(
                        self,
                    ).users@[i]
                &&& final(self).users@.last().uid@ == uid@
                &&& final(self).users@.last().name@ == name@
                &&& final(self).users@.last().keys@ == keys@
                &&& r->Ok_0.uid@ == uid@
            }),
    {
        if keys.len() == 0 {
            return Err(CredentialError::EmptyEntryList);
        }
        match self.find_user(&uid) {
            Option::Some(_) => Err(CredentialError::AlreadyExists),
            Option::None => {
                let session_uid = uid.clone();
                let user = UserRecord { uid, name, keys };
                self.users.push(user);
                proof {
                    let ghost users = self.users@;
                    assert forall|i: int, j: int| 0 <= i < j < users.len() implies users[i].uid@
                        != users[j].uid@ by {
                        if j == users.len() - 1 {
                            assert(!has_uid(old(self).users@, users[j].uid@));
                            assert(old(self).users@[i] == users[i]);
                        }
                    }
                }
                Ok(Session { uid: session_uid })
            },
        }
    }

    fn find_key(keys: &Vec<KeyRecord>, label: &String) -> (r: Option<usize>)
        ensures
            r matches Some(i) ==> 0 <= i < keys@.len() && keys@[i as int].label@ == label@,
            r is None ==> !has_label(keys@, label@),
    {
        let n = keys.len();
        for i in 0..n
            invariant
                n == keys@.len(),
                forall|j: int| 0 <= j < i ==> keys@[j].label@ != label@,
        {
            if keys[i].label == *label {
                return Some(i);
            }
        }
        None
    }

    /// Authenticate a claim to one labeled entry of one account. Succeeds
    /// exactly when the account exists, the label names one of its entries
    /// and the supplied secret equals the stored one; the session and a
    /// copy of the entry's custodial record are returned. Every failure —
    /// unknown account, unknown label, or wrong secret — is the same
    /// `NotFound` value, so the response cannot be used to enumerate
    /// accounts or labels.
    pub fn authenticate(&self, uid: &String, query: &AuthQuery) -> (r: Result<
        (Session, AuthMatch),
        CredentialError,
    >)
        requires
            self.wf(),
        ensures
            r is Ok <==> (has_uid(self.users@, uid@) && auth_matches(
                user_of(self.users@, uid@).keys@,
                query.label@,
                query.user_auth_key.auth@,
            )),
            r is Ok ==> ({
                let key = key_of(user_of(self.users@, uid@).keys@, query.label@);
                &&& r->Ok_0.0.uid@ == uid@
                &&& r->Ok_0.1.label@ == query.label@
                &&& same_custodial(r->Ok_0.1.custodial_key, key.custodial_key)
            }),
            r is Err ==> r->Err_0 == CredentialError::NotFound,
    {
        let ui = match self.find_user(uid) {
            Option::Some(i) => i,
            Option::None => {
                return Err(CredentialError::NotFound);
            },
        };
        proof {
            lemma_user_of_at(self.users@, uid@, ui as int);
        }
        let user = &self.users[ui];
        let ki = match Self::find_key(&user.keys, &query.label) {
            Option::Some(i) => i,
            Option::None => {
                return Err(CredentialError::NotFound);
            },
        };
        proof {
            lemma_key_of_at(user.keys@, query.label@, ki as int);
        }
        let key = &user.keys[ki];
        if eq_bytes(&key.user_auth_key.auth, &query.user_auth_key.auth) {
            Ok(
                (
                    Session { uid: uid.clone() },
                    AuthMatch {
                        label: query.label.clone(),
                        custodial_key: key.custodial_key.duplicate(),
                    },
                ),
            )
        } else {
            Err(CredentialError::NotFound)
        }
    }
}

/// One step of `set_keys`: an entry whose label is already present
/// overwrites that entry in place; any other entry is appended.
pub open spec fn apply_one(keys: Seq<KeyRecord>, u: KeyRecord) -> Seq<KeyRecord> {
    if has_label(keys, u.label@) {
        keys.update(label_index(keys, u.label@), u)
    } else {
        keys.push(u)
    }
}

/// The effect of `set_keys`: its entries applied in order, each one
/// overwriting its label's entry or appending a new one.
pub open spec fn apply_updates(keys: Seq<KeyRecord>, us: Seq<KeyRecord>) -> Seq<KeyRecord>
    decreases us.len(),
{
    if us.len() == 0 {
        keys
    } else {
        apply_updates(apply_one(keys, us[0]), us.drop_first())
    }
}

proof fn lemma_apply_one_wf(keys: Seq<KeyRecord>, u: KeyRecord)
    requires
        distinct_labels(keys),
    ensures
        distinct_labels(apply_one(keys, u)),
        apply_one(keys, u).len() >= keys.len(),
{
    let r = apply_one(keys, u);
    if has_label(keys, u.label@) {
        let li = label_index(keys, u.label@);
        assert(0 <= li < keys.len() && keys[li].label@ == u.label@);
        assert forall|i: int, j: int| 0 <= i < j < r.len() implies r[i].label@ != r[j].label@ by {
            assert(r[i].label@ == keys[i].label@);
            assert(r[j].label@ == keys[j].label@);
        }
    } else {
        assert forall|i: int, j: int| 0 <= i < j < r.len() implies r[i].label@ != r[j].label@ by {
            if j == r.len() - 1 {
                assert(!has_label(keys, u.label@));
                assert(r[i] == keys[i]);
            }
        }
    }
}

proof fn lemma_apply_updates_push(keys: Seq<KeyRecord>, us: Seq<KeyRecord>, x: KeyRecord)
    ensures
        apply_updates(keys, us.push(x)) == apply_one(apply_updates(keys, us), x),
    decreases us.len(),
{
    if us.len() == 0 {
        assert(us.push(x)[0] == x);
        assert(us.push(x).drop_first() =~= Seq::<KeyRecord>::empty());
        assert(apply_updates(keys, us.push(x)) == apply_updates(apply_one(keys, x), Seq::<
            KeyRecord,
        >::empty()));
    } else {
        lemma_apply_updates_push(apply_one(keys, us[0]), us.drop_first(), x);
        assert(us.push(x)[0] == us[0]);
        assert(us.push(x).drop_first() =~= us.drop_first().push(x));
    }
}

impl CredentialStore {
    /// Replace or extend the labeled entries of the session's account.
    /// Requires a valid prior session; fails with `SessionInvalid` when the
    /// session's account does not exist, leaving the store unchanged. Each
    /// supplied entry overwrites the entry already carrying its label, or
    /// is appended as a new entry — overwriting is a deliberate policy
    /// choice, with no archival. All other accounts are untouched.
    pub fn set_keys(&mut self, session: &Session, updates: Vec<KeyRecord>) -> (r: Result<
        (),
        CredentialError,
    >)
        requires
            old(self).wf(),
            distinct_labels(updates@),
        ensures
            final(self).wf(),
            r is Ok <==> has_uid(old(self).users@, session.uid@),
            r is Err ==> r->Err_0 == CredentialError::SessionInvalid && final(self).users@ == old(
                self,
            ).users@,
            r is Ok ==> ({
                &&& final(self).users@.len() == old(self).users@.len()
                &&& forall|i: int|
                    0 <= i < old(self).users@.len() && old(self).users@[i].uid@ != session.uid@
                        ==> final(self).users@[i] == old(self).users@[i]
                &&& forall|i: int|
                    0 <= i < old(self).users@.len() && old(self).users@[i].uid@ == session.uid@
                        ==> ((final(self).users@[i].uid@ == old(self).users@[i].uid@)
                        && (final(self).users@[i].name@ == old(self).users@[i].name@)
                        && (final(self).users@[i].keys@ == apply_updates(
                        old(self).users@[i].keys@,
                        updates@,
                    )))
            }),
    {
        let ui = match self.find_user(&session.uid) {
            Option::Some(i) => i,
            Option::None => {
                return Err(CredentialError::SessionInvalid);
            },
        };
        let ghost orig = self.users@;
        let mut user = self.users.remove(ui);
        let mut updates = updates;
        let ghost us = updates@;
        let ghost keys0 = user.keys@;
        let ghost uid0 = user.uid@;
        let ghost name0 = user.name@;
        proof {
            assert(us.take(0) =~= Seq::<KeyRecord>::empty());
            assert(us.skip(0) =~= us);
        }
        while updates.len() > 0
            invariant
                us.len() >= updates@.len(),
                updates@ == us.skip(us.len() - updates@.len()),
                distinct_labels(us),
                user.keys@ == apply_updates(keys0, us.take(us.len() - updates@.len())),
                user.uid@ == uid0,
                user.name@ == name0,
                distinct_labels(user.keys@),
                user.keys@.len() >= keys0.len(),
            decreases updates@.len(),
        {
            let ghost k = us.len() - updates@.len();
            let u = updates.remove(0);
            proof {
                assert(u == us.skip(k)[0]);
                assert(us.skip(k)[0] == us[k]);
                assert(us.skip(k).remove(0) =~= us.skip(k + 1));
            }
            let ghost keys_before = user.keys@;
            match Self::find_key(&user.keys, &u.label) {
                Option::Some(li) => {
                    proof {
                        lemma_key_of_at(user.keys@, u.label@, li as int);
                    }
                    user.keys[li] = u;
                    proof {
                        assert(user.keys@ == apply_one(keys_before, us[k]));
                    }
                },
                Option::None => {
                    user.keys.push(u);
                    proof {
                        assert(user.keys@ == apply_one(keys_before, us[k]));
                    }
                },
            }
            proof {
                lemma_apply_one_wf(keys_before, us[k]);
                lemma_apply_updates_push(keys0, us.take(k), us[k]);
                assert(us.take(k).push(us[k]) =~= us.take(k + 1));
            }
        }
        proof {
            assert(us.take(us.len() as int) =~= us);
        }
        self.users.insert(ui, user);
        proof {
            assert forall|i: int| 0 <= i < orig.len() && i != ui implies self.users@[i] == orig[i]
                by {
                if i < ui {
                    assert(self.users@[i] == orig.remove(ui as int).insert(ui as int, user)[i]);
                } else {
                    assert(orig.remove(ui as int)[i - 1] == orig[i]);
                }
            }
            assert(self.users@[ui as int] == user);
            assert forall|i: int, j: int| 0 <= i < j < self.users@.len() implies self.users@[i].uid@
                != self.users@[j].uid@ by {
                assert(orig[i].uid@ == self.users@[i].uid@);
                assert(orig[j].uid@ == self.users@[j].uid@);
            }
        }
        Ok(())
    }

    /// Try a list of candidate claims against one account, in the caller's
    /// order, and return a copy of the custodial record of the first claim
    /// whose label and secret both match, together with that label.
    /// An unknown account and a list with no matching claim fail with the
    /// same undistinguished `NotFound` value.
    pub fn recover(&self, uid: String, attempts: Vec<AuthQuery>) -> (r: Result<
        AuthMatch,
        CredentialError,
    >)
        requires
            self.wf(),
        ensures
            r is Ok <==> (has_uid(self.users@, uid@) && exists|k: int|
                0 <= k < attempts@.len() && attempt_matches(
                    user_of(self.users@, uid@).keys@,
                    attempts@[k],
                )),
            r is Ok ==> ({
                let keys = user_of(self.users@, uid@).keys@;
                exists|k: int|
                    is_first_match(keys, attempts@, k) && r->Ok_0.label@ == attempts@[k].label@
                        && same_custodial(
                        r->Ok_0.custodial_key,
                        key_of(keys, attempts@[k].label@).custodial_key,
                    )
            }),
            r is Err ==> r->Err_0 == CredentialError::NotFound,
    {
        let ui = match self.find_user(&uid) {
            Option::Some(i) => i,
            Option::None => {
                return Err(CredentialError::NotFound);
            },
        };
        proof {
            lemma_user_of_at(self.users@, uid@, ui as int);
        }
        let user = &self.users[ui];
        let n = attempts.len();
        for k in 0..n
            invariant
                n == attempts@.len(),
                0 <= ui < self.users@.len(),
                self.users@[ui as int] == user_of(self.users@, uid@),
                self.wf(),
                has_uid(self.users@, uid@),
                forall|j: int|
                    0 <= j < k ==> !attempt_matches(user_of(self.users@, uid@).keys@, attempts@[j]),
        {
            let attempt = &attempts[k];
            let user = &self.users[ui];
            match Self::find_key(&user.keys, &attempt.label) {
                Option::Some(li) => {
                    proof {
                        lemma_key_of_at(user.keys@, attempt.label@, li as int);
                    }
                    let key = &user.keys[li];
                    if eq_bytes(&key.user_auth_key.auth, &attempt.user_auth_key.auth) {
                        proof {
                            assert(attempt_matches(
                                user_of(self.users@, uid@).keys@,
                                attempts@[k as int],
                            ));
                            assert(is_first_match(
                                user_of(self.users@, uid@).keys@,
                                attempts@,
                                k as int,
                            ));
                        }
                        return Ok(
                            AuthMatch {
                                label: attempt.label.clone(),
                                custodial_key: key.custodial_key.duplicate(),
                            },
                        );
                    }
                },
                Option::None => {},
            }
        }
        Err(CredentialError::NotFound)
    }
}

/// Whether one candidate claim matches an account's entries.
pub open spec fn attempt_matches(keys: Seq<KeyRecord>, a: AuthQuery) -> bool {
    auth_matches(keys, a.label@, a.user_auth_key.auth@)
}

/// Whether position `k` holds the first matching claim of a list.
pub open spec fn is_first_match(keys: Seq<KeyRecord>, attempts: Seq<AuthQuery>, k: int) -> bool {
    0 <= k < attempts.len() && attempt_matches(keys, attempts[k]) && forall|j: int|
        0 <= j < k ==> !attempt_matches(keys, attempts[j])
}

/// After a successful registration the account id is present, so by
/// `register`'s contract a second registration under the same id must
/// fail with `AlreadyExists`.
pub proof fn lemma_register_twice(users: Seq<UserRecord>, u: UserRecord, uid: Seq<char>)
    requires
        u.uid@ == uid,
    ensures
        has_uid(users.push(u), uid),
{
    assert(users.push(u)[users.len() as int].uid@ == uid);
}

} // verus!
