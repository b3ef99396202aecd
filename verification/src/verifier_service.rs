//! The verifier: the identifier → identity-record store and the three
//! protocol handlers.
//!
//! `recv_register_request` assigns a fresh random identifier and stores the
//! holder's public key; `recv_challenge_request` issues a fresh random nonce
//! for a registered identity and records when it was issued;
//! `recv_verify_request` consumes the presented nonce — removing it whatever
//! happens next — and judges the signature over its bytes under the
//! registered key. The identifier and the nonce are drawn from a secure
//! random source and the clock is read from the machine, so the two handlers
//! that draw them promise what holds of every outcome; the deterministic
//! cores `challenge_at` and `verify_at` take the drawn nonce and the clock
//! reading as arguments and pin the outcome exactly.

use vstd::prelude::*;

use crate::crypto::{ed25519_verifies, ed25519_verify, new_system_random, random_nonce};
use crate::errors::VerifierError;
use crate::messages::{
    HolderChallengeRequest, HolderRegisterRequest, HolderVerifyRequest, Nonce, UserId,
    VerifierChallengeResponse, VerifierRegisterResponse, VerifierVerifyResponse,
};
use crate::user::{nonce_fresh, with_nonce, without_nonce, User, UserView};
use crate::NONCE_EXPIRATION_SECS;

verus! {

/// Whether a verify request for `nonce` by `user_id` is accepted at `now`:
/// the identity is registered, the nonce is outstanding for it, and the
/// nonce has not expired.
pub open spec fn verify_accepts(
    users: Map<UserId, UserView>,
    user_id: UserId,
    nonce: Seq<u8>,
    now: u64,
) -> bool {
    &&& users.contains_key(user_id)
    &&& users[user_id].nonces.contains_key(nonce)
    &&& nonce_fresh(users[user_id].nonces[nonce], now)
}

/// The store after a verify request for `nonce` by `user_id`: if the
/// identity is registered the nonce is removed from its ledger — present or
/// not, fresh or expired — and an unknown identifier changes nothing.
pub open spec fn verify_consumes(
    users: Map<UserId, UserView>,
    user_id: UserId,
    nonce: Seq<u8>,
) -> Map<UserId, UserView> {
    if users.contains_key(user_id) {
        users.insert(user_id, without_nonce(users[user_id], nonce))
    } else {
        users
    }
}

/// One stored registration.
struct UserEntry {
    id: UserId,
    user: User,
}

/// The identifier → record map a sequence of entries represents; later
/// entries win, as for repeated inserts.
spec fn users_map(es: Seq<UserEntry>) -> Map<UserId, UserView>
    decreases es.len(),
{
    if es.len() == 0 {
        Map::empty()
    } else {
        users_map(es.drop_last()).insert(es.last().id, es.last().user@)
    }
}

/// The entries hold pairwise distinct identifiers.
spec fn users_distinct(es: Seq<UserEntry>) -> bool {
    forall|i: int, j: int| 0 <= i < j < es.len() ==> es[i].id != es[j].id
}

/// Every entry's identifier is a key of the represented map, and with
/// distinct entries it maps to that entry's record.
proof fn lemma_user_in_map(es: Seq<UserEntry>, i: int)
    requires
        0 <= i < es.len(),
    ensures
        users_map(es).contains_key(es[i].id),
        users_distinct(es) ==> users_map(es)[es[i].id] == es[i].user@,
    decreases es.len(),
{
    if i < es.len() - 1 {
        lemma_user_in_map(es.drop_last(), i);
        assert(es.drop_last()[i] == es[i]);
    }
}

/// Every key of the represented map is some entry's identifier.
proof fn lemma_map_key_has_user(es: Seq<UserEntry>, id: UserId)
    requires
        users_map(es).contains_key(id),
    ensures
        exists|i: int| 0 <= i < es.len() && es[i].id == id,
    decreases es.len(),
{
    if es.last().id == id {
        assert(es[es.len() - 1].id == id);
    } else {
        lemma_map_key_has_user(es.drop_last(), id);
        let i = choose|i: int| 0 <= i < es.drop_last().len() && es.drop_last()[i].id == id;
        assert(es[i].id == id);
    }
}

/// An identifier that no entry holds is no key of the represented map.
proof fn lemma_no_user_not_in_map(es: Seq<UserEntry>, id: UserId)
    requires
        forall|i: int| 0 <= i < es.len() ==> es[i].id != id,
    ensures
        !users_map(es).contains_key(id),
{
    if users_map(es).contains_key(id) {
        lemma_map_key_has_user(es, id);
        let i = choose|i: int| 0 <= i < es.len() && es[i].id == id;
        assert(es[i].id != id);
    }
}

/// Appending an entry inserts its pair into the represented map.
proof fn lemma_users_push(es: Seq<UserEntry>, id: UserId, u: UserView)
    requires
        es.len() > 0,
        es.last().id == id,
        es.last().user@ == u,
    ensures
        users_map(es) == users_map(es.drop_last()).insert(id, u),
{
}

/// Removing the entry at `i` removes its identifier from the represented
/// map, and keeps the entries distinct.
proof fn lemma_users_remove(es: Seq<UserEntry>, i: int)
    requires
        users_distinct(es),
        0 <= i < es.len(),
    ensures
        users_map(es.remove(i)) == users_map(es).remove(es[i].id),
        users_distinct(es.remove(i)),
    decreases es.len(),
{
    let id = es[i].id;
    es.remove_ensures(i);
    assert(users_distinct(es.remove(i)));
    if i == es.len() - 1 {
        assert(es.remove(i) =~= es.drop_last());
        assert(forall|j: int| 0 <= j < es.drop_last().len() ==> es.drop_last()[j].id != id);
        lemma_no_user_not_in_map(es.drop_last(), id);
        assert(users_map(es).remove(id) =~= users_map(es.drop_last()));
    } else {
        assert(es.remove(i).drop_last() =~= es.drop_last().remove(i));
        assert(es.drop_last()[i] == es[i]);
        lemma_users_remove(es.drop_last(), i);
        assert(es.remove(i).last() == es.last());
        assert(users_map(es.remove(i)) =~= users_map(es).remove(id));
    }
}

/// The index of the entry registered under `user_id`, if one is.
fn find_user(entries: &Vec<UserEntry>, user_id: UserId) -> (r: Option<usize>)
    ensures
        r matches Some(i) ==> i < entries@.len() && entries@[i as int].id == user_id,
        r is None ==> forall|j: int| 0 <= j < entries@.len() ==> entries@[j].id != user_id,
{
    let mut i: usize = 0;
    while i < entries.len()
        invariant
            i <= entries@.len(),
            forall|j: int| 0 <= j < i ==> entries@[j].id != user_id,
        decreases entries@.len() - i,
    {
        if entries[i].id == user_id {
            return Some(i);
        }
        i += 1;
    }
    None
}

/// Relies on chrono's `Utc::now`: the current civil time, as whole seconds
/// since the Unix epoch. The value comes from the machine's clock; nothing
/// is promised of it.
#[verifier::external_body]
fn now_timestamp() -> i64 {
    chrono::Utc::now().timestamp()
}

/// The machine clock as the protocol sees it: seconds since the Unix epoch,
/// clamped to zero for times before it.
fn now_secs() -> u64 {
    let t = now_timestamp();
    if t < 0 {
        0
    } else {
        t as u64
    }
}

/// The identity backend: a secure random source and the store of registered
/// identities, viewed as the identifier → record map it represents.
pub struct Verifier {
    rng: ring::rand::SystemRandom,
    users: Vec<UserEntry>,
}

impl View for Verifier {
    type V = Map<UserId, UserView>;

    closed spec fn view(&self) -> Map<UserId, UserView> {
        users_map(self.users@)
    }
}

impl Verifier {
    #[verifier::type_invariant]
    spec fn wf(self) -> bool {
        users_distinct(self.users@)
    }

    /// A verifier with no registered identities.
    pub fn new() -> (r: Self)
        ensures
            r@ == Map::<UserId, UserView>::empty(),
    {
        Self { rng: new_system_random(), users: Vec::new() }
    }

    /// Registers the requesting holder: a fresh random identifier is drawn,
    /// a record holding the request's public key and no outstanding nonce is
    /// stored under it, and the identifier is returned. Registration always
    /// succeeds; the identifier's uniqueness rests on its 128 bits of
    /// randomness, so a colliding record would be replaced, as for any
    /// repeated insert.
    pub fn recv_register_request(&mut self, request: HolderRegisterRequest) -> (r: Result<
        VerifierRegisterResponse,
        VerifierError,
    >)
        ensures
            r is Ok,
            r matches Ok(resp) ==> final(self)@ == old(self)@.insert(
                resp.spec_user_id(),
                (UserView { public_key: request.spec_public_key()@, nonces: Map::empty() }),
            ),
    {
        proof {
            use_type_invariant(&*self);
        }
        let public_key = *request.public_key();
        let new_user_id = UserId::new_random();
        let new_user = User::new(public_key);
        let mut users: Vec<UserEntry> = Vec::new();
        std::mem::swap(&mut users, &mut self.users);
        let ghost before = users@;
        match find_user(&users, new_user_id) {
            Some(i) => {
                users.remove(i);
                proof {
                    lemma_users_remove(before, i as int);
                    if users_map(users@).contains_key(new_user_id) {
                        assert(false);
                    }
                    assert forall|j: int| 0 <= j < users@.len() implies users@[j].id
                        != new_user_id by {
                        lemma_user_in_map(users@, j);
                    }
                }
            },
            None => {
                proof {
                    lemma_no_user_not_in_map(before, new_user_id);
                }
            },
        }
        let ghost pruned = users@;
        users.push(UserEntry { id: new_user_id, user: new_user });
        proof {
            assert(users@.drop_last() =~= pruned);
            lemma_users_push(users@, new_user_id, (UserView {
                public_key: public_key@,
                nonces: Map::empty(),
            }));
            assert(users_map(users@) =~= users_map(before).insert(new_user_id, (UserView {
                public_key: public_key@,
                nonces: Map::empty(),
            })));
        }
        self.users = users;
        Ok(VerifierRegisterResponse::new(new_user_id))
    }

    /// The deterministic core of a challenge: records `nonce` as issued at
    /// `now` for the requesting identity. An unknown identifier is refused
    /// and changes nothing; for a registered one the record's expired
    /// entries are swept, the nonce is stored, and it is returned.
    pub fn challenge_at(
        &mut self,
        request: HolderChallengeRequest,
        nonce: Nonce,
        now: u64,
    ) -> (r: Result<VerifierChallengeResponse, VerifierError>)
        ensures
            !old(self)@.contains_key(request.user_id()) ==> r == Err::<
                VerifierChallengeResponse,
                VerifierError,
            >(VerifierError::UserNotFound) && final(self)@ == old(self)@,
            old(self)@.contains_key(request.user_id()) ==> (r matches Ok(resp) && resp.spec_nonce()
                == nonce) && final(self)@ == old(self)@.insert(
                request.user_id(),
                with_nonce(old(self)@[request.user_id()], nonce@, now),
            ),
    {
        proof {
            use_type_invariant(&*self);
        }
        let user_id = request.user_id();
        let ghost before = self.users@;
        match find_user(&self.users, user_id) {
            None => {
                proof {
                    lemma_no_user_not_in_map(before, user_id);
                }
                Err(VerifierError::UserNotFound)
            },
            Some(i) => {
                let mut users: Vec<UserEntry> = Vec::new();
                std::mem::swap(&mut users, &mut self.users);
                let mut entry = users.remove(i);
                proof {
                    lemma_user_in_map(before, i as int);
                    lemma_users_remove(before, i as int);
                }
                entry.user.add_nonce(nonce, now);
                let ghost pruned = users@;
                users.push(entry);
                proof {
                    assert(users@.drop_last() =~= pruned);
                    lemma_users_push(
                        users@,
                        user_id,
                        with_nonce(users_map(before)[user_id], nonce@, now),
                    );
                    assert(users_map(users@) =~= users_map(before).insert(
                        user_id,
                        with_nonce(users_map(before)[user_id], nonce@, now),
                    ));
                    if users_map(pruned).contains_key(user_id) {
                        assert(false);
                    }
                    assert forall|j: int| 0 <= j < pruned.len() implies pruned[j].id
                        != user_id by {
                        lemma_user_in_map(pruned, j);
                    }
                }
                self.users = users;
                Ok(VerifierChallengeResponse::new(nonce))
            },
        }
    }

    /// Issues a fresh challenge: for a registered identity a new 32-byte
    /// nonce is drawn from the secure random source, recorded with the
    /// current time, and returned. The nonce is random, so all that is
    /// promised of a success is that some clock reading produced the new
    /// state; every refusal is pinned exactly. Issuing is independent of any
    /// other outstanding nonce for the same identity.
    pub fn recv_challenge_request(&mut self, request: HolderChallengeRequest) -> (r: Result<
        VerifierChallengeResponse,
        VerifierError,
    >)
        ensures
            (!old(self)@.contains_key(request.user_id())) <==> r == Err::<
                VerifierChallengeResponse,
                VerifierError,
            >(VerifierError::UserNotFound),
            r is Err ==> final(self)@ == old(self)@ && (r == Err::<
                VerifierChallengeResponse,
                VerifierError,
            >(VerifierError::UserNotFound) || r == Err::<
                VerifierChallengeResponse,
                VerifierError,
            >(VerifierError::NonceGenerationFailed)),
            r matches Ok(resp) ==> old(self)@.contains_key(request.user_id())
                && exists|now: u64|
                final(self)@ == old(self)@.insert(
                    request.user_id(),
                    with_nonce(old(self)@[request.user_id()], resp.spec_nonce()@, now),
                ),
    {
        proof {
            use_type_invariant(&*self);
        }
        let user_id = request.user_id();
        let ghost before = self.users@;
        match find_user(&self.users, user_id) {
            None => {
                proof {
                    lemma_no_user_not_in_map(before, user_id);
                }
                return Err(VerifierError::UserNotFound);
            },
            Some(i) => {
                proof {
                    lemma_user_in_map(before, i as int);
                }
            },
        }
        let nonce = match random_nonce(&self.rng) {
            Ok(n) => n,
            Err(_) => {
                return Err(VerifierError::NonceGenerationFailed);
            },
        };
        let now = now_secs();
        self.challenge_at(request, nonce, now)
    }

    /// The deterministic core of a verification: consumes the presented
    /// nonce and judges the signature, all against the clock reading `now`.
    /// An unknown identifier is refused untouched; for a registered one the
    /// presented nonce is removed from the ledger no matter what, and the
    /// attempt is accepted only if the nonce was outstanding and unexpired —
    /// the response then carries exactly whether the signature verifies over
    /// the nonce's bytes under the registered public key.
    pub fn verify_at(&mut self, request: HolderVerifyRequest, now: u64) -> (r: Result<
        VerifierVerifyResponse,
        VerifierError,
    >)
        ensures
            final(self)@ == verify_consumes(old(self)@, request.user_id(), request.nonce()@),
            (r is Ok) == verify_accepts(old(self)@, request.user_id(), request.nonce()@, now),
            r matches Ok(resp) ==> resp.spec_is_success() == ed25519_verifies(
                old(self)@[request.user_id()].public_key,
                request.nonce()@,
                request.spec_signature()@,
            ),
            !old(self)@.contains_key(request.user_id()) ==> r == Err::<
                VerifierVerifyResponse,
                VerifierError,
            >(VerifierError::UserNotFound),
            old(self)@.contains_key(request.user_id()) && !verify_accepts(
                old(self)@,
                request.user_id(),
                request.nonce()@,
                now,
            ) ==> r == Err::<VerifierVerifyResponse, VerifierError>(VerifierError::UserNonceNoMatch),
    {
        proof {
            use_type_invariant(&*self);
        }
        let user_id = request.user_id();
        let ghost before = self.users@;
        match find_user(&self.users, user_id) {
            None => {
                proof {
                    lemma_no_user_not_in_map(before, user_id);
                }
                Err(VerifierError::UserNotFound)
            },
            Some(i) => {
                let mut users: Vec<UserEntry> = Vec::new();
                std::mem::swap(&mut users, &mut self.users);
                let mut entry = users.remove(i);
                proof {
                    lemma_user_in_map(before, i as int);
                    lemma_users_remove(before, i as int);
                }
                let public_key = *entry.user.public_key();
                let nonce = request.nonce();
                let taken = entry.user.take_nonce(&nonce, now);
                let ghost pruned = users@;
                users.push(entry);
                proof {
                    assert(users@.drop_last() =~= pruned);
                    lemma_users_push(
                        users@,
                        user_id,
                        without_nonce(users_map(before)[user_id], nonce@),
                    );
                    assert(users_map(users@) =~= verify_consumes(
                        users_map(before),
                        user_id,
                        nonce@,
                    ));
                    if users_map(pruned).contains_key(user_id) {
                        assert(false);
                    }
                    assert forall|j: int| 0 <= j < pruned.len() implies pruned[j].id
                        != user_id by {
                        lemma_user_in_map(pruned, j);
                    }
                }
                self.users = users;
                match taken {
                    None => Err(VerifierError::UserNonceNoMatch),
                    Some(consumed) => {
                        let ok = ed25519_verify(&public_key, &consumed, request.signature());
                        Ok(VerifierVerifyResponse::new(ok))
                    },
                }
            },
        }
    }

    /// Judges a proof of possession against the machine clock. Everything
    /// clock-independent is pinned here: the presented nonce is consumed by
    /// the attempt whatever its outcome, an unknown identifier is the one
    /// source of `UserNotFound`, and a success reports exactly whether the
    /// signature verifies over the nonce's bytes under the registered key —
    /// a failed check is a normal `success == false` response, never an
    /// error. Whether an outstanding nonce has expired depends on the clock
    /// reading and is pinned by `verify_at`.
    pub fn recv_verify_request(&mut self, request: HolderVerifyRequest) -> (r: Result<
        VerifierVerifyResponse,
        VerifierError,
    >)
        ensures
            final(self)@ == verify_consumes(old(self)@, request.user_id(), request.nonce()@),
            (!old(self)@.contains_key(request.user_id())) <==> r == Err::<
                VerifierVerifyResponse,
                VerifierError,
            >(VerifierError::UserNotFound),
            r matches Ok(resp) ==> old(self)@[request.user_id()].nonces.contains_key(
                request.nonce()@,
            ) && resp.spec_is_success() == ed25519_verifies(
                old(self)@[request.user_id()].public_key,
                request.nonce()@,
                request.spec_signature()@,
            ),
            old(self)@.contains_key(request.user_id()) && !old(
                self,
            )@[request.user_id()].nonces.contains_key(request.nonce()@) ==> r == Err::<
                VerifierVerifyResponse,
                VerifierError,
            >(VerifierError::UserNonceNoMatch),
            r is Err ==> r == Err::<VerifierVerifyResponse, VerifierError>(
                VerifierError::UserNotFound,
            ) || r == Err::<VerifierVerifyResponse, VerifierError>(VerifierError::UserNonceNoMatch),
    {
        let now = now_secs();
        self.verify_at(request, now)
    }
}

// The protocol's standing guarantees, stated over the same spec functions
// the handlers' contracts use.

/// A consumed nonce can never be accepted again: after a verification
/// attempt for `(user_id, nonce)` against a registered identity, a second
/// attempt with the same pair is rejected, whatever the clock says by then
/// and whatever the first attempt's outcome was.
pub proof fn lemma_replay_rejected(
    users: Map<UserId, UserView>,
    user_id: UserId,
    nonce: Seq<u8>,
    later: u64,
)
    requires
        users.contains_key(user_id),
    ensures
        !verify_accepts(verify_consumes(users, user_id, nonce), user_id, nonce, later),
{
}

/// An expired nonce is never accepted: from one second past the end of its
/// validity window on, a verify attempt for it is rejected, even if it was
/// never used.
pub proof fn lemma_expiry_rejected(
    users: Map<UserId, UserView>,
    user_id: UserId,
    nonce: Seq<u8>,
    now: u64,
)
    requires
        users.contains_key(user_id),
        users[user_id].nonces.contains_key(nonce),
        now >= users[user_id].nonces[nonce] + NONCE_EXPIRATION_SECS + 1,
    ensures
        !verify_accepts(users, user_id, nonce, now),
{
}

/// Outstanding nonces are independent under verification: an attempt for one
/// nonce neither removes nor re-dates a distinct one, so whether the other
/// is accepted is exactly as before.
pub proof fn lemma_nonces_independent(
    users: Map<UserId, UserView>,
    user_id: UserId,
    first: Seq<u8>,
    second: Seq<u8>,
    now: u64,
)
    requires
        users.contains_key(user_id),
        first != second,
    ensures
        verify_consumes(users, user_id, first)[user_id].nonces.contains_key(second)
            == users[user_id].nonces.contains_key(second),
        users[user_id].nonces.contains_key(second) ==> verify_consumes(
            users,
            user_id,
            first,
        )[user_id].nonces[second] == users[user_id].nonces[second],
        verify_accepts(verify_consumes(users, user_id, first), user_id, second, now)
            == verify_accepts(users, user_id, second, now),
{
}

/// Outstanding nonces are independent under challenges: issuing a new
/// distinct nonce at `now` keeps every nonce that is still fresh at `now` in
/// the ledger, with its issuance time unchanged.
pub proof fn lemma_challenge_preserves_outstanding(
    u: UserView,
    outstanding: Seq<u8>,
    issued: Seq<u8>,
    now: u64,
)
    requires
        u.nonces.contains_key(outstanding),
        nonce_fresh(u.nonces[outstanding], now),
        outstanding != issued,
    ensures
        with_nonce(u, issued, now).nonces.contains_key(outstanding),
        with_nonce(u, issued, now).nonces[outstanding] == u.nonces[outstanding],
{
}

} // verus!
