use vstd::prelude::*;

use crate::models::{NewSignature, NewWallet, Signature, Wallet};

verus! {

/// First record whose identifier is `wallet_id`, scanning from the
/// front.
pub open spec fn spec_find_wallet(s: Seq<Wallet>, wallet_id: i64) -> Option<Wallet>
    decreases s.len(),
{
    if s.len() == 0 {
        None
    } else if s[0].id == Some(wallet_id) {
        Some(s[0])
    } else {
        spec_find_wallet(s.drop_first(), wallet_id)
    }
}

/// The leading records, at most `limit` of them, in store order.
pub open spec fn spec_list_prefix(s: Seq<Wallet>, limit: int) -> Seq<Wallet> {
    s.take(if limit <= s.len() { limit } else { s.len() as int })
}

/// Pushing one element filters to the old result, plus the element
/// when it satisfies the predicate.
pub proof fn lemma_filter_push<A>(s: Seq<A>, x: A, pred: spec_fn(A) -> bool)
    ensures
        s.push(x).filter(pred) == if pred(x) {
            s.filter(pred).push(x)
        } else {
            s.filter(pred)
        },
{
    reveal_with_fuel(Seq::filter, 2);
    assert(s.push(x).drop_last() =~= s);
}

/// The in-memory wallet repository: insertion-ordered records, each
/// under a distinct identifier the store assigned.
pub struct WalletStore {
    /// Stored records, oldest first.
    pub wallets: Vec<Wallet>,
    /// The identifier the next insertion receives; never reused.
    pub next_id: i64,
}

impl WalletStore {
    /// Every stored record carries a distinct identifier below
    /// `next_id`, so fresh identifiers never collide.
    pub open spec fn wf(&self) -> bool {
        &&& 1 <= self.next_id
        &&& forall|i: int|
            0 <= i < self.wallets@.len() ==> ((#[trigger] self.wallets@[i].id) matches Some(id)
                && 1 <= id < self.next_id)
        &&& forall|i: int, j: int|
            0 <= i < j < self.wallets@.len() ==> (#[trigger] self.wallets@[i].id) != (
            #[trigger] self.wallets@[j].id)
    }

    /// Room for one more identifier.
    pub open spec fn fresh_id_ok(&self) -> bool {
        self.next_id < i64::MAX
    }

    /// An empty store.
    pub fn new() -> (r: Self)
        ensures
            r.wf(),
            r.fresh_id_ok(),
            r.wallets@.len() == 0,
    {
        WalletStore { wallets: Vec::new(), next_id: 1 }
    }

    /// Persists one record under a fresh identifier and returns that
    /// identifier; everything already stored stays as it was.
    pub fn insert(&mut self, w: NewWallet, created_at: i64) -> (id: i64)
        requires
            old(self).wf(),
            old(self).fresh_id_ok(),
        ensures
            final(self).wf(),
            id == old(self).next_id,
            final(self).next_id == old(self).next_id + 1,
            final(self).wallets@ == old(self).wallets@.push(
                (Wallet {
                    id: Some(id),
                    address: w.address,
                    private_key: w.private_key,
                    created_at: created_at,
                    key_type: w.key_type,
                }),
            ),
    {
        let id = self.next_id;
        self.next_id = self.next_id + 1;
        self.wallets.push(
            Wallet {
                id: Some(id),
                address: w.address,
                private_key: w.private_key,
                created_at: created_at,
                key_type: w.key_type,
            },
        );
        id
    }

    /// The record stored under `wallet_id`, if any; identifiers are
    /// unique, so at most one record can match.
    pub fn find_by_id(&self, wallet_id: i64) -> (r: Option<Wallet>)
        ensures
            r == spec_find_wallet(self.wallets@, wallet_id),
    {
        let n = self.wallets.len();
        proof {
            assert(self.wallets@.skip(0) =~= self.wallets@);
        }
        let mut i: usize = 0;
        while i < n
            invariant
                0 <= i <= n,
                n == self.wallets@.len(),
                spec_find_wallet(self.wallets@, wallet_id) == spec_find_wallet(
                    self.wallets@.skip(i as int),
                    wallet_id,
                ),
            decreases n - i,
        {
            proof {
                assert(self.wallets@.skip(i as int)[0] == self.wallets@[i as int]);
                assert(self.wallets@.skip(i as int).drop_first() =~= self.wallets@.skip(
                    i as int + 1,
                ));
            }
            if self.wallets[i].id == Some(wallet_id) {
                return Some(self.wallets[i].clone());
            }
            i += 1;
        }
        proof {
            assert(self.wallets@.skip(n as int) =~= Seq::<Wallet>::empty());
        }
        None
    }

    /// Up to `limit` records, oldest first.
    pub fn list(&self, limit: usize) -> (r: Vec<Wallet>)
        ensures
            r@ == spec_list_prefix(self.wallets@, limit as int),
    {
        let n = if limit <= self.wallets.len() {
            limit
        } else {
            self.wallets.len()
        };
        let mut out: Vec<Wallet> = Vec::new();
        let mut i: usize = 0;
        while i < n
            invariant
                0 <= i <= n,
                n <= self.wallets@.len(),
                n == spec_list_prefix(self.wallets@, limit as int).len(),
                out@ == self.wallets@.take(i as int),
            decreases n - i,
        {
            out.push(self.wallets[i].clone());
            proof {
                assert(self.wallets@.take(i as int + 1) =~= self.wallets@.take(i as int).push(
                    self.wallets@[i as int],
                ));
            }
            i += 1;
        }
        proof {
            assert(out@ =~= spec_list_prefix(self.wallets@, limit as int));
        }
        out
    }

    /// Deletes every record unconditionally; identifiers are not
    /// reused afterwards.
    pub fn delete_all(&mut self)
        requires
            old(self).wf(),
        ensures
            final(self).wf(),
            final(self).wallets@.len() == 0,
            final(self).next_id == old(self).next_id,
    {
        self.wallets = Vec::new();
    }
}

/// Holds of a record stored under `wallet_id`.
pub open spec fn for_wallet(wallet_id: i64) -> spec_fn(Signature) -> bool {
    |x: Signature| x.wallet_id == wallet_id
}

/// Holds of a record stored under any other wallet.
pub open spec fn not_for_wallet(wallet_id: i64) -> spec_fn(Signature) -> bool {
    |x: Signature| x.wallet_id != wallet_id
}

/// The records stored under `wallet_id`, in store order.
pub open spec fn spec_sigs_of_wallet(s: Seq<Signature>, wallet_id: i64) -> Seq<Signature> {
    s.filter(for_wallet(wallet_id))
}

/// The in-memory signature repository: insertion-ordered records, each
/// under a distinct identifier the store assigned.
pub struct SignatureStore {
    /// Stored records, oldest first.
    pub sigs: Vec<Signature>,
    /// The identifier the next insertion receives; never reused.
    pub next_id: i64,
}

impl SignatureStore {
    /// Every stored record carries a distinct identifier below
    /// `next_id`.
    pub open spec fn wf(&self) -> bool {
        &&& 1 <= self.next_id
        &&& forall|i: int|
            0 <= i < self.sigs@.len() ==> ((#[trigger] self.sigs@[i].id) matches Some(id) && 1 <= id
                < self.next_id)
        &&& forall|i: int, j: int|
            0 <= i < j < self.sigs@.len() ==> (#[trigger] self.sigs@[i].id) != (
            #[trigger] self.sigs@[j].id)
    }

    /// Room for one more identifier.
    pub open spec fn fresh_id_ok(&self) -> bool {
        self.next_id < i64::MAX
    }

    /// An empty store.
    pub fn new() -> (r: Self)
        ensures
            r.wf(),
            r.fresh_id_ok(),
            r.sigs@.len() == 0,
    {
        SignatureStore { sigs: Vec::new(), next_id: 1 }
    }

    /// Persists one record under a fresh identifier and returns that
    /// identifier; everything already stored stays as it was.
    pub fn insert(&mut self, s: NewSignature, created_at: i64) -> (id: i64)
        requires
            old(self).wf(),
            old(self).fresh_id_ok(),
        ensures
            final(self).wf(),
            id == old(self).next_id,
            final(self).next_id == old(self).next_id + 1,
            final(self).sigs@ == old(self).sigs@.push(
                (Signature {
                    id: Some(id),
                    wallet_id: s.wallet_id,
                    message: s.message,
                    signature: s.signature,
                    created_at: created_at,
                }),
            ),
    {
        let id = self.next_id;
        self.next_id = self.next_id + 1;
        self.sigs.push(
            Signature {
                id: Some(id),
                wallet_id: s.wallet_id,
                message: s.message,
                signature: s.signature,
                created_at: created_at,
            },
        );
        id
    }

    /// Every record whose `wallet_id` matches, in store order.
    pub fn list_by_wallet(&self, wallet_id: i64) -> (r: Vec<Signature>)
        ensures
            r@ == spec_sigs_of_wallet(self.sigs@, wallet_id),
    {
        let n = self.sigs.len();
        let mut out: Vec<Signature> = Vec::new();
        let mut i: usize = 0;
        while i < n
            invariant
                0 <= i <= n,
                n == self.sigs@.len(),
                out@ == self.sigs@.take(i as int).filter(for_wallet(wallet_id)),
            decreases n - i,
        {
            proof {
                assert(self.sigs@.take(i as int + 1) =~= self.sigs@.take(i as int).push(
                    self.sigs@[i as int],
                ));
                lemma_filter_push(
                    self.sigs@.take(i as int),
                    self.sigs@[i as int],
                    for_wallet(wallet_id),
                );
                assert(for_wallet(wallet_id)(self.sigs@[i as int]) == (
                self.sigs@[i as int].wallet_id == wallet_id));
            }
            if self.sigs[i].wallet_id == wallet_id {
                out.push(self.sigs[i].clone());
            }
            i += 1;
        }
        proof {
            assert(self.sigs@.take(n as int) =~= self.sigs@);
        }
        out
    }

    /// Deletes every record unconditionally.
    pub fn delete_all(&mut self)
        requires
            old(self).wf(),
        ensures
            final(self).wf(),
            final(self).sigs@.len() == 0,
            final(self).next_id == old(self).next_id,
    {
        self.sigs = Vec::new();
    }

    /// Deletes exactly the records stored under `wallet_id`; all
    /// others stay, in their order.
    pub fn delete_by_wallet(&mut self, wallet_id: i64)
        requires
            old(self).wf(),
        ensures
            final(self).wf(),
            final(self).sigs@ == old(self).sigs@.filter(not_for_wallet(wallet_id)),
            final(self).next_id == old(self).next_id,
    {
        let ghost orig = self.sigs@;
        let n = self.sigs.len();
        let mut out: Vec<Signature> = Vec::new();
        let mut i: usize = 0;
        while i < n
            invariant
                0 <= i <= n,
                n == self.sigs@.len(),
                self.sigs@ == orig,
                out@ == orig.take(i as int).filter(not_for_wallet(wallet_id)),
            decreases n - i,
        {
            proof {
                assert(orig.take(i as int + 1) =~= orig.take(i as int).push(orig[i as int]));
                lemma_filter_push(orig.take(i as int), orig[i as int], not_for_wallet(wallet_id));
                assert(not_for_wallet(wallet_id)(orig[i as int]) == (orig[i as int].wallet_id
                    != wallet_id));
            }
            if self.sigs[i].wallet_id != wallet_id {
                out.push(self.sigs[i].clone());
            }
            i += 1;
        }
        proof {
            assert(orig.take(n as int) =~= orig);
        }
        self.sigs = out;
        proof {
            lemma_filter_keeps_wf(orig, not_for_wallet(wallet_id), old(self).next_id as int);
        }
    }
}

/// Every element of a filtered sequence stands somewhere in the
/// original.
proof fn lemma_filter_in_orig<A>(s: Seq<A>, pred: spec_fn(A) -> bool, i: int)
    requires
        0 <= i < s.filter(pred).len(),
    ensures
        s.contains(s.filter(pred)[i]),
    decreases s.len(),
{
    reveal_with_fuel(Seq::filter, 2);
    if s.len() > 0 {
        let prefix = s.drop_last();
        let fp = prefix.filter(pred);
        if pred(s.last()) && i == fp.len() {
            assert(s.filter(pred)[i] == s.last());
            assert(s[s.len() - 1] == s.last());
        } else {
            lemma_filter_in_orig(prefix, pred, i);
            let k = choose|k: int| 0 <= k < prefix.len() && prefix[k] == fp[i];
            assert(s[k] == fp[i]);
        }
    }
}

/// Filtering keeps identifiers present, distinct and bounded: the
/// filtered sequence is well-formed under the same `next_id`.
proof fn lemma_filter_keeps_wf(s: Seq<Signature>, pred: spec_fn(Signature) -> bool, next_id: int)
    requires
        forall|i: int|
            0 <= i < s.len() ==> ((#[trigger] s[i].id) matches Some(id) && 1 <= id < next_id),
        forall|i: int, j: int| 0 <= i < j < s.len() ==> (#[trigger] s[i].id) != (#[trigger] s[j].id),
    ensures
        forall|i: int|
            0 <= i < s.filter(pred).len() ==> ((#[trigger] s.filter(pred)[i].id) matches Some(id)
                && 1 <= id < next_id),
        forall|i: int, j: int|
            0 <= i < j < s.filter(pred).len() ==> (#[trigger] s.filter(pred)[i].id) != (
            #[trigger] s.filter(pred)[j].id),
    decreases s.len(),
{
    reveal_with_fuel(Seq::filter, 2);
    if s.len() > 0 {
        let prefix = s.drop_last();
        lemma_filter_keeps_wf(prefix, pred, next_id);
        let f = s.filter(pred);
        let fp = prefix.filter(pred);
        if pred(s.last()) {
            assert(f == fp.push(s.last()));
            assert forall|i: int| 0 <= i < f.len() implies (#[trigger] f[i].id) matches Some(id)
                && 1 <= id < next_id by {
                if i < fp.len() {
                    assert(f[i] == fp[i]);
                } else {
                    assert(f[i] == s.last());
                    assert(s.last() == s[s.len() - 1]);
                }
            }
            assert forall|i: int, j: int| 0 <= i < j < f.len() implies (#[trigger] f[i].id) != (
            #[trigger] f[j].id) by {
                if j < fp.len() {
                    assert(f[i] == fp[i] && f[j] == fp[j]);
                } else {
                    assert(f[j] == s.last());
                    assert(f[i] == fp[i]);
                    lemma_filter_in_orig(prefix, pred, i);
                    let k = choose|k: int| 0 <= k < prefix.len() && prefix[k] == fp[i];
                    assert(s[k] == prefix[k]);
                    assert(s[k].id != s[s.len() - 1].id);
                }
            }
        } else {
            assert(f == fp);
        }
    }
}

} // verus!
