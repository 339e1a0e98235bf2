//! Snapshots of the external world that the routing logic reads.
//!
//! The liquidity-pool gateway and the bank are external collaborators: the
//! surrounding runtime queries them and hands the answers to the core as
//! plain values. A [`PoolSet`] records which token pairs have a liquidity
//! pool; a [`BalanceSheet`] records the held balance of each token.

use vstd::prelude::*;
use crate::asset::{AssetInfo, TokenId};

verus! {

/// Whether the snapshot `pools` records a liquidity pool between `a` and `b`,
/// in either order.
pub open spec fn pool_listed(pools: Seq<(TokenId, TokenId)>, a: TokenId, b: TokenId) -> bool {
    exists|i: int|
        0 <= i < pools.len() && ((pools[i].0 == a && pools[i].1 == b) || (pools[i].0 == b
            && pools[i].1 == a))
}

/// The set of token pairs that have a liquidity pool, as reported by the
/// pool gateway. A pair is unordered: listing `(a, b)` also lists `(b, a)`.
pub struct PoolSet {
    /// The listed pairs.
    pub pairs: Vec<(AssetInfo, AssetInfo)>,
}

impl View for PoolSet {
    type V = Seq<(TokenId, TokenId)>;

    open spec fn view(&self) -> Seq<(TokenId, TokenId)> {
        self.pairs@.map_values(|p: (AssetInfo, AssetInfo)| (p.0@, p.1@))
    }
}

impl PoolSet {
    /// An empty snapshot: no pair has a pool.
    pub fn new() -> (r: Self)
        ensures
            r@ =~= Seq::<(TokenId, TokenId)>::empty(),
    {
        PoolSet { pairs: Vec::new() }
    }

    /// Records that `a` and `b` have a liquidity pool.
    pub fn add(&mut self, a: AssetInfo, b: AssetInfo)
        ensures
            final(self)@ =~= old(self)@.push((a@, b@)),
    {
        self.pairs.push((a, b));
    }

    /// Whether a pool between `a` and `b` is listed, in either order.
    pub fn has_pool(&self, a: &AssetInfo, b: &AssetInfo) -> (r: bool)
        ensures
            r == pool_listed(self@, a@, b@),
    {
        let n = self.pairs.len();
        let mut i: usize = 0;
        while i < n
            invariant
                0 <= i <= n,
                n == self.pairs.len(),
                forall|j: int|
                    0 <= j < i ==> !((self@[j].0 == a@ && self@[j].1 == b@) || (self@[j].0 == b@
                        && self@[j].1 == a@)),
            decreases n - i,
        {
            let pair = &self.pairs[i];
            if (pair.0 == *a && pair.1 == *b) || (pair.0 == *b && pair.1 == *a) {
                assert((self@[i as int].0 == a@ && self@[i as int].1 == b@) || (self@[i as int].0
                    == b@ && self@[i as int].1 == a@));
                return true;
            }
            i = i + 1;
        }
        false
    }
}

/// The balance the snapshot `balances` reports for `t`: the first entry for
/// the token, or zero when the token has no entry.
pub open spec fn balance_in(balances: Seq<(TokenId, u128)>, t: TokenId) -> u128
    decreases balances.len(),
{
    if balances.len() == 0 {
        0
    } else if balances[0].0 == t {
        balances[0].1
    } else {
        balance_in(balances.drop_first(), t)
    }
}

/// The held balance of each token, as reported by balance queries. A token
/// without an entry is held with balance zero.
pub struct BalanceSheet {
    /// The reported balances.
    pub entries: Vec<(AssetInfo, u128)>,
}

impl View for BalanceSheet {
    type V = Seq<(TokenId, u128)>;

    open spec fn view(&self) -> Seq<(TokenId, u128)> {
        self.entries@.map_values(|e: (AssetInfo, u128)| (e.0@, e.1))
    }
}

/// Skipping entries whose token differs from `t` leaves the reported balance
/// of `t` unchanged.
proof fn lemma_balance_in_skip(balances: Seq<(TokenId, u128)>, t: TokenId, i: int)
    requires
        0 <= i <= balances.len(),
        forall|j: int| 0 <= j < i ==> balances[j].0 != t,
    ensures
        balance_in(balances, t) == balance_in(balances.skip(i), t),
    decreases i,
{
    if i > 0 {
        lemma_balance_in_skip(balances.drop_first(), t, i - 1);
        assert(balances.drop_first().skip(i - 1) =~= balances.skip(i));
    } else {
        assert(balances.skip(0) =~= balances);
    }
}

impl BalanceSheet {
    /// An empty snapshot: every token is held with balance zero.
    pub fn new() -> (r: Self)
        ensures
            r@ =~= Seq::<(TokenId, u128)>::empty(),
    {
        BalanceSheet { entries: Vec::new() }
    }

    /// Records that `amount` of `t` is held.
    pub fn add(&mut self, t: AssetInfo, amount: u128)
        ensures
            final(self)@ =~= old(self)@.push((t@, amount)),
    {
        self.entries.push((t, amount));
    }

    /// The held balance of `t`.
    pub fn balance_of(&self, t: &AssetInfo) -> (r: u128)
        ensures
            r == balance_in(self@, t@),
    {
        let n = self.entries.len();
        let mut i: usize = 0;
        while i < n
            invariant
                0 <= i <= n,
                n == self.entries.len(),
                forall|j: int| 0 <= j < i ==> self@[j].0 != t@,
            decreases n - i,
        {
            let entry = &self.entries[i];
            if entry.0 == *t {
                proof {
                    lemma_balance_in_skip(self@, t@, i as int);
                }
                return entry.1;
            }
            i = i + 1;
        }
        proof {
            lemma_balance_in_skip(self@, t@, n as int);
            assert(self@.skip(n as int) =~= Seq::<(TokenId, u128)>::empty());
        }
        0
    }
}

} // verus!
