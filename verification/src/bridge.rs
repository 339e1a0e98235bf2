//! The bridge table and its cycle-safety validation.
//!
//! The table maps a source token to the intermediate (bridge) token used to
//! reach the target token: one bridge per source token, last write wins, and
//! no token may map to itself. Every write is validated by a bounded walk:
//! starting from the bridge token, further table entries are followed (or a
//! direct pool to the target token terminates the walk) up to a fixed lookup
//! depth, and the write is rejected when the walk cannot reach the target.

use vstd::prelude::*;
use crate::asset::{AssetInfo, TokenId};
use crate::config::opt_token_view;
use crate::market::{pool_listed, PoolSet};

verus! {

/// The ceiling of the bounded walk that validates a bridge path: how many
/// further table entries may be followed after the first bridge token.
pub const MAX_BRIDGE_LOOKUP_DEPTH: u64 = 2;

/// Whether `t` records a bridge for the source token `k`.
pub open spec fn table_has_key(t: Seq<(TokenId, TokenId)>, k: TokenId) -> bool {
    exists|i: int| 0 <= i < t.len() && t[i].0 == k
}

/// The bridge token `t` records for the source token `k`: the first entry
/// with that source, or nothing.
pub open spec fn table_bridge_of(t: Seq<(TokenId, TokenId)>, k: TokenId) -> Option<TokenId>
    decreases t.len(),
{
    if t.len() == 0 {
        None
    } else if t[0].0 == k {
        Some(t[0].1)
    } else {
        table_bridge_of(t.drop_first(), k)
    }
}

/// The table after writing the entry `k -> v`: the entry for `k` is replaced
/// when one exists, else appended.
pub open spec fn table_upsert(t: Seq<(TokenId, TokenId)>, k: TokenId, v: TokenId) -> Seq<
    (TokenId, TokenId),
> {
    if table_has_key(t, k) {
        t.map(|i: int, e: (TokenId, TokenId)| if e.0 == k { (k, v) } else { e })
    } else {
        t.push((k, v))
    }
}

/// The table after removing the entry for `k`: every entry whose source is
/// `k` is dropped, the rest keep their order.
pub open spec fn table_remove(t: Seq<(TokenId, TokenId)>, k: TokenId) -> Seq<(TokenId, TokenId)>
    decreases t.len(),
{
    if t.len() == 0 {
        t
    } else {
        let rest = table_remove(t.drop_last(), k);
        if t.last().0 != k {
            rest.push(t.last())
        } else {
            rest
        }
    }
}

/// Well-formedness of a table: one entry per source token, and no entry maps
/// a token to itself.
pub open spec fn table_wf(t: Seq<(TokenId, TokenId)>) -> bool {
    &&& forall|i: int, j: int| 0 <= i < j < t.len() ==> t[i].0 != t[j].0
    &&& forall|i: int| 0 <= i < t.len() ==> t[i].0 != t[i].1
}

/// Whether the path that starts with the entry `from -> bridge` terminates at
/// `target` within the lookup bound: a pool between `from` and `bridge` must
/// exist, and from `bridge` the target must be reached either directly (the
/// bridge is the target, or a pool against the target exists) or through a
/// further table entry, following at most `MAX_BRIDGE_LOOKUP_DEPTH - depth`
/// more entries.
pub open spec fn path_ok(
    table: Seq<(TokenId, TokenId)>,
    pools: Seq<(TokenId, TokenId)>,
    from: TokenId,
    bridge: TokenId,
    target: TokenId,
    depth: u64,
) -> bool
    decreases MAX_BRIDGE_LOOKUP_DEPTH - depth,
{
    &&& pool_listed(pools, from, bridge)
    &&& (bridge == target || pool_listed(pools, bridge, target) || (match table_bridge_of(
        table,
        bridge,
    ) {
        Some(next) => depth < MAX_BRIDGE_LOOKUP_DEPTH && path_ok(
            table,
            pools,
            bridge,
            next,
            target,
            (depth + 1) as u64,
        ),
        None => false,
    }))
}

/// Skipping entries whose source differs from `k` leaves the recorded bridge
/// unchanged.
proof fn lemma_table_bridge_of_skip(t: Seq<(TokenId, TokenId)>, k: TokenId, i: int)
    requires
        0 <= i <= t.len(),
        forall|j: int| 0 <= j < i ==> t[j].0 != k,
    ensures
        table_bridge_of(t, k) == table_bridge_of(t.skip(i), k),
    decreases i,
{
    if i > 0 {
        lemma_table_bridge_of_skip(t.drop_first(), k, i - 1);
        assert(t.drop_first().skip(i - 1) =~= t.skip(i));
    } else {
        assert(t.skip(0) =~= t);
    }
}

/// Removal keeps only entries of the original table, drops every entry for
/// `k`, and preserves well-formedness.
proof fn lemma_table_remove_props(t: Seq<(TokenId, TokenId)>, k: TokenId)
    ensures
        forall|i: int|
            0 <= i < table_remove(t, k).len() ==> t.contains(#[trigger] table_remove(t, k)[i])
                && table_remove(t, k)[i].0 != k,
        table_wf(t) ==> table_wf(table_remove(t, k)),
    decreases t.len(),
{
    let out = table_remove(t, k);
    if t.len() > 0 {
        let prefix = t.drop_last();
        let rest = table_remove(prefix, k);
        lemma_table_remove_props(prefix, k);
        assert forall|i: int|
            0 <= i < out.len() implies t.contains(#[trigger] out[i]) && out[i].0 != k by {
            if i < rest.len() {
                assert(prefix.contains(rest[i]));
                let w = choose|w: int| 0 <= w < prefix.len() && prefix[w] == rest[i];
                assert(t[w] == out[i]);
            } else {
                assert(t[t.len() - 1] == out[i]);
            }
        }
        if table_wf(t) {
            assert(table_wf(prefix));
            assert forall|p: int, q: int|
                0 <= p < q < out.len() implies out[p].0 != out[q].0 by {
                if q == rest.len() && t.last().0 != k {
                    assert(prefix.contains(rest[p]));
                    let w = choose|w: int| 0 <= w < prefix.len() && prefix[w] == rest[p];
                    assert(t[w].0 != t[t.len() - 1].0);
                }
            }
            assert forall|i: int| 0 <= i < out.len() implies out[i].0 != out[i].1 by {
                let w = choose|w: int| 0 <= w < t.len() && t[w] == out[i];
            }
        }
    }
}

/// The persistent one-hop routing table: source token to bridge token.
pub struct BridgeTable {
    entries: Vec<(AssetInfo, AssetInfo)>,
}

impl View for BridgeTable {
    type V = Seq<(TokenId, TokenId)>;

    closed spec fn view(&self) -> Seq<(TokenId, TokenId)> {
        self.entries@.map_values(|e: (AssetInfo, AssetInfo)| (e.0@, e.1@))
    }
}

impl BridgeTable {
    /// Well-formedness: one entry per source token, no self-loops.
    pub open spec fn wf(&self) -> bool {
        table_wf(self@)
    }

    /// An empty table.
    pub fn new() -> (r: Self)
        ensures
            r@ =~= Seq::<(TokenId, TokenId)>::empty(),
            r.wf(),
    {
        BridgeTable { entries: Vec::new() }
    }

    /// The number of entries.
    pub fn len(&self) -> (r: usize)
        ensures
            r == self@.len(),
    {
        self.entries.len()
    }

    /// The bridge token recorded for `k`, if any.
    pub fn bridge_of(&self, k: &AssetInfo) -> (r: Option<AssetInfo>)
        ensures
            opt_token_view(r) == table_bridge_of(self@, k@),
    {
        let n = self.entries.len();
        let mut i: usize = 0;
        while i < n
            invariant
                0 <= i <= n,
                n == self.entries.len(),
                forall|j: int| 0 <= j < i ==> self@[j].0 != k@,
            decreases n - i,
        {
            let entry = &self.entries[i];
            if entry.0 == *k {
                proof {
                    lemma_table_bridge_of_skip(self@, k@, i as int);
                }
                return Some(entry.1.clone());
            }
            i = i + 1;
        }
        proof {
            lemma_table_bridge_of_skip(self@, k@, n as int);
            assert(self@.skip(n as int) =~= Seq::<(TokenId, TokenId)>::empty());
        }
        None
    }

    /// Writes the entry `src -> bri`, replacing an existing entry for `src`.
    pub fn insert(&mut self, src: AssetInfo, bri: AssetInfo)
        requires
            old(self).wf(),
            src@ != bri@,
        ensures
            final(self).wf(),
            final(self)@ == table_upsert(old(self)@, src@, bri@),
    {
        let n = self.entries.len();
        let mut i: usize = 0;
        while i < n
            invariant
                0 <= i <= n,
                n == self.entries.len(),
                self == old(self),
                old(self).wf(),
                src@ != bri@,
                forall|j: int| 0 <= j < i ==> self@[j].0 != src@,
            decreases n - i,
        {
            if self.entries[i].0 == src {
                proof {
                    assert(old(self)@[i as int].0 == src@);
                    assert(table_has_key(old(self)@, src@));
                }
                self.entries.set(i, (src, bri));
                proof {
                    assert forall|j: int|
                        0 <= j < old(self)@.len() && j != i implies old(self)@[j].0 != src@ by {
                        if old(self)@[j].0 == src@ {
                            assert(old(self)@[i as int].0 == src@);
                        }
                    }
                    assert(self@ =~= table_upsert(old(self)@, src@, bri@));
                    assert forall|p: int, q: int|
                        0 <= p < q < self@.len() implies self@[p].0 != self@[q].0 by {
                        assert(self@[p].0 == old(self)@[p].0);
                        assert(self@[q].0 == old(self)@[q].0);
                    }
                }
                return ;
            }
            i = i + 1;
        }
        proof {
            assert(!table_has_key(old(self)@, src@));
        }
        self.entries.push((src, bri));
        proof {
            assert(self@ =~= old(self)@.push((src@, bri@)));
        }
    }

    /// Every entry, in table order.
    pub fn entries(&self) -> (r: Vec<(AssetInfo, AssetInfo)>)
        ensures
            r@.len() == self@.len(),
            forall|i: int|
                0 <= i < r@.len() ==> (#[trigger] r@[i].0@, r@[i].1@) == self@[i],
    {
        let n = self.entries.len();
        let mut r: Vec<(AssetInfo, AssetInfo)> = Vec::new();
        let mut i: usize = 0;
        while i < n
            invariant
                0 <= i <= n,
                n == self.entries.len(),
                r@.len() == i,
                forall|j: int|
                    0 <= j < i ==> (#[trigger] r@[j].0@, r@[j].1@) == self@[j],
            decreases n - i,
        {
            let entry = &self.entries[i];
            r.push((entry.0.clone(), entry.1.clone()));
            i = i + 1;
        }
        r
    }

    /// Every entry, as source and bridge identifier strings, in table order.
    pub fn list_entries(&self) -> (r: Vec<(String, String)>)
        ensures
            r@.len() == self@.len(),
            forall|i: int|
                0 <= i < r@.len() ==> r@[i].0@ == self@[i].0.text() && r@[i].1@
                    == self@[i].1.text(),
    {
        let n = self.entries.len();
        let mut r: Vec<(String, String)> = Vec::new();
        let mut i: usize = 0;
        while i < n
            invariant
                0 <= i <= n,
                n == self.entries.len(),
                r@.len() == i,
                forall|j: int|
                    0 <= j < i ==> r@[j].0@ == self@[j].0.text() && r@[j].1@
                        == self@[j].1.text(),
            decreases n - i,
        {
            let entry = &self.entries[i];
            r.push((entry.0.id_string(), entry.1.id_string()));
            i = i + 1;
        }
        r
    }

    /// Removes the entry for `k`, if any.
    pub fn remove(&mut self, k: &AssetInfo)
        requires
            old(self).wf(),
        ensures
            final(self).wf(),
            final(self)@ == table_remove(old(self)@, k@),
    {
        let n = self.entries.len();
        let mut kept: Vec<(AssetInfo, AssetInfo)> = Vec::new();
        let mut i: usize = 0;
        while i < n
            invariant
                0 <= i <= n,
                n == self.entries.len(),
                self == old(self),
                kept@.map_values(|e: (AssetInfo, AssetInfo)| (e.0@, e.1@)) =~= table_remove(
                    self@.take(i as int),
                    k@,
                ),
            decreases n - i,
        {
            let entry = &self.entries[i];
            proof {
                assert(self@.take(i as int + 1).drop_last() =~= self@.take(i as int));
                assert(self@.take(i as int + 1).last() == self@[i as int]);
            }
            if !(entry.0 == *k) {
                kept.push((entry.0.clone(), entry.1.clone()));
            }
            i = i + 1;
        }
        proof {
            assert(self@.take(n as int) =~= self@);
            lemma_table_remove_props(old(self)@, k@);
        }
        self.entries = kept;
    }
}

/// Whether the path that starts with the entry `from -> bridge` reaches
/// `target` within the lookup bound, against the given pool snapshot.
pub fn bridge_path_valid(
    table: &BridgeTable,
    pools: &PoolSet,
    from: &AssetInfo,
    bridge: &AssetInfo,
    target: &AssetInfo,
    depth: u64,
) -> (r: bool)
    ensures
        r == path_ok(table@, pools@, from@, bridge@, target@, depth),
    decreases MAX_BRIDGE_LOOKUP_DEPTH - depth,
{
    if !pools.has_pool(from, bridge) {
        return false;
    }
    if *bridge == *target {
        return true;
    }
    if pools.has_pool(bridge, target) {
        return true;
    }
    match table.bridge_of(bridge) {
        None => false,
        Some(next) => {
            if depth < MAX_BRIDGE_LOOKUP_DEPTH {
                bridge_path_valid(table, pools, bridge, &next, target, depth + 1)
            } else {
                false
            }
        },
    }
}

} // verus!
