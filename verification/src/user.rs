//! One registered identity: its public key and its ledger of outstanding
//! nonces.
//!
//! The ledger maps each outstanding nonce to its issuance time. A nonce is
//! acceptable only while `issued_at + NONCE_EXPIRATION_SECS >= now`; adding a
//! nonce first sweeps entries that have expired, and taking one removes it
//! unconditionally — an expired-but-present nonce is still removed, so it can
//! never be replayed later. The ledger is stored as a vector of entries with
//! pairwise distinct nonces and is viewed as the map it represents.

use vstd::prelude::*;

use crate::messages::{Nonce, PublicKey};
use crate::NONCE_EXPIRATION_SECS;

verus! {

/// Whether a nonce issued at `issued_at` is still acceptable at `now`.
pub open spec fn nonce_fresh(issued_at: u64, now: u64) -> bool {
    issued_at + NONCE_EXPIRATION_SECS >= now
}

/// The ledger `nonces` with every entry that has expired by `now` removed.
pub open spec fn swept_nonces(nonces: Map<Seq<u8>, u64>, now: u64) -> Map<Seq<u8>, u64> {
    Map::new(
        |k: Seq<u8>| nonces.contains_key(k) && nonce_fresh(nonces[k], now),
        |k: Seq<u8>| nonces[k],
    )
}

/// The mathematical state of one identity record.
#[verifier::ext_equal]
pub struct UserView {
    /// The registered 32-byte Ed25519 public key.
    pub public_key: Seq<u8>,
    /// Each outstanding nonce, mapped to the time it was issued.
    pub nonces: Map<Seq<u8>, u64>,
}

/// The record after a challenge at `now` issued `nonce`: expired entries are
/// swept, then the nonce is recorded with issuance time `now`.
pub open spec fn with_nonce(u: UserView, nonce: Seq<u8>, now: u64) -> UserView {
    UserView {
        public_key: u.public_key,
        nonces: swept_nonces(u.nonces, now).insert(nonce, now),
    }
}

/// The record after a consumption attempt of `nonce`: the entry is gone,
/// whether or not it was present, fresh or expired.
pub open spec fn without_nonce(u: UserView, nonce: Seq<u8>) -> UserView {
    UserView { public_key: u.public_key, nonces: u.nonces.remove(nonce) }
}

/// One outstanding nonce with its issuance time.
#[derive(Clone, Copy)]
struct NonceEntry {
    nonce: Nonce,
    issued_at: u64,
}

/// The map a sequence of ledger entries represents: later entries win, as
/// for repeated inserts.
spec fn entries_map(es: Seq<NonceEntry>) -> Map<Seq<u8>, u64>
    decreases es.len(),
{
    if es.len() == 0 {
        Map::empty()
    } else {
        entries_map(es.drop_last()).insert(es.last().nonce@, es.last().issued_at)
    }
}

/// The entries hold pairwise distinct nonces.
spec fn entries_distinct(es: Seq<NonceEntry>) -> bool {
    forall|i: int, j: int| 0 <= i < j < es.len() ==> es[i].nonce@ != es[j].nonce@
}

/// Every entry's nonce is a key of the represented map, and with distinct
/// entries it maps to that entry's issuance time.
proof fn lemma_entry_in_map(es: Seq<NonceEntry>, i: int)
    requires
        0 <= i < es.len(),
    ensures
        entries_map(es).contains_key(es[i].nonce@),
        entries_distinct(es) ==> entries_map(es)[es[i].nonce@] == es[i].issued_at,
    decreases es.len(),
{
    if i < es.len() - 1 {
        lemma_entry_in_map(es.drop_last(), i);
        assert(es.drop_last()[i] == es[i]);
    }
}

/// Every key of the represented map is some entry's nonce.
proof fn lemma_map_key_has_entry(es: Seq<NonceEntry>, k: Seq<u8>)
    requires
        entries_map(es).contains_key(k),
    ensures
        exists|i: int| 0 <= i < es.len() && es[i].nonce@ == k,
    decreases es.len(),
{
    if es.last().nonce@ == k {
        assert(es[es.len() - 1].nonce@ == k);
    } else {
        lemma_map_key_has_entry(es.drop_last(), k);
        let i = choose|i: int| 0 <= i < es.drop_last().len() && es.drop_last()[i].nonce@ == k;
        assert(es[i].nonce@ == k);
    }
}

/// A nonce that no entry holds is no key of the represented map.
proof fn lemma_no_entry_not_in_map(es: Seq<NonceEntry>, k: Seq<u8>)
    requires
        forall|i: int| 0 <= i < es.len() ==> es[i].nonce@ != k,
    ensures
        !entries_map(es).contains_key(k),
{
    if entries_map(es).contains_key(k) {
        lemma_map_key_has_entry(es, k);
        let i = choose|i: int| 0 <= i < es.len() && es[i].nonce@ == k;
        assert(es[i].nonce@ != k);
    }
}

/// Appending an entry inserts its pair into the represented map.
proof fn lemma_map_push(es: Seq<NonceEntry>, e: NonceEntry)
    ensures
        entries_map(es.push(e)) == entries_map(es).insert(e.nonce@, e.issued_at),
{
    assert(es.push(e).drop_last() =~= es);
    assert(es.push(e).last() == e);
}

/// Removing the entry at `i` removes its nonce from the represented map, and
/// keeps the entries distinct.
proof fn lemma_map_remove_entry(es: Seq<NonceEntry>, i: int)
    requires
        entries_distinct(es),
        0 <= i < es.len(),
    ensures
        entries_map(es.remove(i)) == entries_map(es).remove(es[i].nonce@),
        entries_distinct(es.remove(i)),
    decreases es.len(),
{
    let k = es[i].nonce@;
    es.remove_ensures(i);
    assert(entries_distinct(es.remove(i)));
    if i == es.len() - 1 {
        assert(es.remove(i) =~= es.drop_last());
        assert(forall|j: int| 0 <= j < es.drop_last().len() ==> es.drop_last()[j].nonce@ != k);
        lemma_no_entry_not_in_map(es.drop_last(), k);
        assert(entries_map(es).remove(k) =~= entries_map(es.drop_last()));
    } else {
        assert(es.remove(i).drop_last() =~= es.drop_last().remove(i));
        assert(es.drop_last()[i] == es[i]);
        lemma_map_remove_entry(es.drop_last(), i);
        assert(es.remove(i).last() == es.last());
        assert(entries_map(es.remove(i)) =~= entries_map(es).remove(k));
    }
}

/// Whether a nonce issued at `timestamp` has expired by `now`.
fn timestamp_expired(now: u64, timestamp: u64) -> (r: bool)
    ensures
        r == !nonce_fresh(timestamp, now),
{
    now > NONCE_EXPIRATION_SECS && timestamp < now - NONCE_EXPIRATION_SECS
}

/// Whether two nonces hold the same bytes.
fn nonce_eq(a: &Nonce, b: &Nonce) -> (r: bool)
    ensures
        r == (a@ == b@),
{
    let mut i: usize = 0;
    while i < 32
        invariant
            i <= 32,
            forall|j: int| 0 <= j < i ==> a@[j] == b@[j],
        decreases 32 - i,
    {
        if a[i] != b[i] {
            return false;
        }
        i += 1;
    }
    proof {
        assert(a@ =~= b@);
    }
    true
}

/// The index of the entry holding `nonce`, if any entry does.
fn find_nonce(entries: &Vec<NonceEntry>, nonce: &Nonce) -> (r: Option<usize>)
    ensures
        r matches Some(i) ==> i < entries@.len() && entries@[i as int].nonce@ == nonce@,
        r is None ==> forall|j: int| 0 <= j < entries@.len() ==> entries@[j].nonce@ != nonce@,
{
    let mut i: usize = 0;
    while i < entries.len()
        invariant
            i <= entries@.len(),
            forall|j: int| 0 <= j < i ==> entries@[j].nonce@ != nonce@,
        decreases entries@.len() - i,
    {
        if nonce_eq(&entries[i].nonce, nonce) {
            return Some(i);
        }
        i += 1;
    }
    None
}

/// The entries with every expired one dropped; the distinct survivors
/// represent the swept map.
fn sweep_entries(entries: Vec<NonceEntry>, now: u64) -> (r: Vec<NonceEntry>)
    requires
        entries_distinct(entries@),
    ensures
        entries_distinct(r@),
        entries_map(r@) == swept_nonces(entries_map(entries@), now),
{
    let ghost all = entries@;
    let mut kept: Vec<NonceEntry> = Vec::new();
    let mut idx: usize = 0;
    while idx < entries.len()
        invariant
            idx <= all.len(),
            entries@ == all,
            entries_distinct(all),
            entries_distinct(kept@),
            forall|j: int|
                0 <= j < kept@.len() ==> exists|l: int|
                    0 <= l < idx && all[l].nonce@ == #[trigger] kept@[j].nonce@,
            entries_map(kept@) == swept_nonces(entries_map(all.subrange(0, idx as int)), now),
        decreases all.len() - idx,
    {
        let e = entries[idx];
        let ghost prefix = all.subrange(0, idx as int);
        let ghost k = e.nonce@;
        proof {
            assert(all.subrange(0, idx + 1).drop_last() =~= prefix);
            assert(all.subrange(0, idx + 1).last() == e);
            assert(forall|l: int| 0 <= l < prefix.len() ==> prefix[l].nonce@ != k);
            lemma_no_entry_not_in_map(prefix, k);
            assert(forall|j: int| 0 <= j < kept@.len() ==> kept@[j].nonce@ != k) by {
                assert forall|j: int| 0 <= j < kept@.len() implies kept@[j].nonce@ != k by {
                    let l = choose|l: int| 0 <= l < idx && all[l].nonce@ == kept@[j].nonce@;
                    assert(all[l].nonce@ != all[idx as int].nonce@);
                }
            }
        }
        proof {
            assert(entries_map(all.subrange(0, idx + 1)) == entries_map(prefix).insert(
                k,
                e.issued_at,
            ));
        }
        if !timestamp_expired(now, e.issued_at) {
            let ghost pre = kept@;
            kept.push(e);
            proof {
                lemma_map_push(pre, e);
                assert(swept_nonces(entries_map(prefix).insert(k, e.issued_at), now)
                    =~= swept_nonces(entries_map(prefix), now).insert(k, e.issued_at));
                assert(entries_map(kept@) == swept_nonces(
                    entries_map(all.subrange(0, idx + 1)),
                    now,
                ));
            }
        } else {
            proof {
                assert(swept_nonces(entries_map(prefix).insert(k, e.issued_at), now)
                    =~= swept_nonces(entries_map(prefix), now));
                assert(entries_map(kept@) == swept_nonces(
                    entries_map(all.subrange(0, idx + 1)),
                    now,
                ));
            }
        }
        idx += 1;
    }
    proof {
        assert(all.subrange(0, all.len() as int) =~= all);
    }
    kept
}

/// One registered identity: an immutable public key and the ledger of
/// outstanding nonces.
pub(crate) struct User {
    public_key: PublicKey,
    nonces: Vec<NonceEntry>,
}

impl View for User {
    type V = UserView;

    closed spec fn view(&self) -> UserView {
        UserView { public_key: self.public_key@, nonces: entries_map(self.nonces@) }
    }
}

impl User {
    #[verifier::type_invariant]
    spec fn wf(self) -> bool {
        entries_distinct(self.nonces@)
    }

    /// A fresh record for a newly registered public key: no nonce is
    /// outstanding.
    pub(crate) fn new(public_key: PublicKey) -> (r: Self)
        ensures
            r@ == (UserView { public_key: public_key@, nonces: Map::empty() }),
    {
        Self { public_key, nonces: Vec::new() }
    }

    /// The registered public key.
    pub(crate) fn public_key(&self) -> (r: &PublicKey)
        ensures
            r@ == self@.public_key,
    {
        &self.public_key
    }

    /// Records a nonce issued at `now`, after sweeping every entry that has
    /// expired by then. Growth is bounded by the expiry window, not by a cap.
    pub(crate) fn add_nonce(&mut self, nonce: Nonce, now: u64)
        ensures
            final(self)@ == with_nonce(old(self)@, nonce@, now),
    {
        self.cleanup_expired_nonces(now);
        proof {
            use_type_invariant(&*self);
        }
        let ghost mid = self.nonces@;
        let mut entries: Vec<NonceEntry> = Vec::new();
        std::mem::swap(&mut entries, &mut self.nonces);
        match find_nonce(&entries, &nonce) {
            Some(i) => {
                entries.remove(i);
                proof {
                    lemma_map_remove_entry(mid, i as int);
                }
            },
            None => {
                proof {
                    lemma_no_entry_not_in_map(mid, nonce@);
                }
            },
        }
        let ghost pruned = entries@;
        entries.push(NonceEntry { nonce, issued_at: now });
        proof {
            lemma_map_push(pruned, NonceEntry { nonce, issued_at: now });
            assert(forall|j: int| 0 <= j < pruned.len() ==> pruned[j].nonce@ != nonce@) by {
                if entries_map(pruned).contains_key(nonce@) {
                    assert(false);
                }
                assert forall|j: int| 0 <= j < pruned.len() implies pruned[j].nonce@ != nonce@ by {
                    lemma_entry_in_map(pruned, j);
                }
            }
            assert(entries_map(entries@) =~= entries_map(mid).insert(nonce@, now));
        }
        self.nonces = entries;
        proof {
            assert(self@ =~= with_nonce(old(self)@, nonce@, now));
        }
    }

    /// Consumes a nonce: if the ledger holds it, the entry is removed no
    /// matter what, and the nonce comes back only if it was still fresh at
    /// `now`. A missing or expired nonce yields `None`.
    pub(crate) fn take_nonce(&mut self, nonce: &Nonce, now: u64) -> (r: Option<Nonce>)
        ensures
            final(self)@ == without_nonce(old(self)@, nonce@),
            (r is Some) == (old(self)@.nonces.contains_key(nonce@) && nonce_fresh(
                old(self)@.nonces[nonce@],
                now,
            )),
            r matches Some(n) ==> n@ == nonce@,
    {
        proof {
            use_type_invariant(&*self);
        }
        let ghost before = self.nonces@;
        match find_nonce(&self.nonces, nonce) {
            None => {
                proof {
                    lemma_no_entry_not_in_map(before, nonce@);
                    assert(self@ =~= without_nonce(old(self)@, nonce@));
                }
                None
            },
            Some(i) => {
                let mut entries: Vec<NonceEntry> = Vec::new();
                std::mem::swap(&mut entries, &mut self.nonces);
                let entry = entries.remove(i);
                proof {
                    lemma_entry_in_map(before, i as int);
                    lemma_map_remove_entry(before, i as int);
                }
                self.nonces = entries;
                proof {
                    assert(self@ =~= without_nonce(old(self)@, nonce@));
                }
                if timestamp_expired(now, entry.issued_at) {
                    None
                } else {
                    Some(*nonce)
                }
            },
        }
    }

    /// Drops every ledger entry that has expired by `now`.
    pub(crate) fn cleanup_expired_nonces(&mut self, now: u64)
        ensures
            final(self)@ == (UserView {
                public_key: old(self)@.public_key,
                nonces: swept_nonces(old(self)@.nonces, now),
            }),
    {
        proof {
            use_type_invariant(&*self);
        }
        let mut entries: Vec<NonceEntry> = Vec::new();
        std::mem::swap(&mut entries, &mut self.nonces);
        let kept = sweep_entries(entries, now);
        self.nonces = kept;
        proof {
            assert(self@ =~= (UserView {
                public_key: old(self)@.public_key,
                nonces: swept_nonces(old(self)@.nonces, now),
            }));
        }
    }
}

} // verus!
