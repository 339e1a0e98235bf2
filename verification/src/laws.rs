//! Laws of the routing core: properties that hold of every input, proved
//! once and for all over the specification functions.

use vstd::prelude::*;
use crate::asset::{spendable, ItemV, TokenId};
use crate::collect::{collect_spec, cooldown_gate, dup_exists};
use crate::config::ConfigV;
use crate::dispatch::{
    balance_after_distribute, continue_spec, distribute_amount, uncapped_items, MAX_ROUTE_DEPTH,
};
use crate::error::ErrV;
use crate::instr::InstrV;
use crate::market::balance_in;
use crate::plan::plan_items;
use crate::admin::{add_all, update_bridges_spec};

verus! {

/// Law: a token whose spendable amount is zero contributes no instruction.
/// Whenever every batch item naming the token has a zero spendable amount, a
/// successful plan holds no swap that offers that token.
pub proof fn lemma_zero_spendable_emits_nothing(
    cfg: ConfigV,
    table: Seq<(TokenId, TokenId)>,
    pools: Seq<(TokenId, TokenId)>,
    bals: Seq<(TokenId, u128)>,
    items: Seq<ItemV>,
    t: TokenId,
)
    requires
        plan_items(cfg, table, pools, bals, items) is Ok,
        forall|i: int|
            0 <= i < items.len() && items[i].token == t ==> spendable(
                balance_in(bals, t),
                #[trigger] items[i].limit,
            ) == 0,
    ensures
        ({
            let p = plan_items(cfg, table, pools, bals, items)->Ok_0;
            forall|j: int|
                0 <= j < p.swaps.len() ==> ((#[trigger] p.swaps[j]) matches InstrV::Swap {
                    offer,
                    ..
                } ==> offer != t)
        }),
    decreases items.len(),
{
    let p = plan_items(cfg, table, pools, bals, items)->Ok_0;
    if items.len() > 0 {
        assert forall|i: int|
            0 <= i < items.drop_last().len() && items.drop_last()[i].token
                == t implies spendable(
            balance_in(bals, t),
            #[trigger] items.drop_last()[i].limit,
        ) == 0 by {
            assert(items.drop_last()[i] == items[i]);
        }
        lemma_zero_spendable_emits_nothing(cfg, table, pools, bals, items.drop_last(), t);
        let prev = plan_items(cfg, table, pools, bals, items.drop_last())->Ok_0;
        assert forall|j: int| 0 <= j < p.swaps.len() implies ((#[trigger] p.swaps[j]) matches
            InstrV::Swap { offer, .. } ==> offer != t) by {
            if j < prev.swaps.len() {
                assert(prev.swaps[j] == p.swaps[j]);
            } else {
                assert(items.last() == items[items.len() - 1]);
                assert(items[items.len() - 1].limit == items.last().limit);
            }
        }
    }
}

/// Law: a collection request that names the same token twice fails with the
/// duplicate-asset error, once the cooldown gate lets it through; the error
/// aborts the invocation, so the last-collection timestamp and every other
/// piece of state stay as they were.
pub proof fn lemma_duplicate_collect_rejected(
    cfg: ConfigV,
    table: Seq<(TokenId, TokenId)>,
    pools: Seq<(TokenId, TokenId)>,
    bals: Seq<(TokenId, u128)>,
    last_ts: u64,
    now: u64,
    items: Seq<ItemV>,
)
    requires
        dup_exists(items),
        cooldown_gate(cfg.collect_cooldown, last_ts, now) is None,
    ensures
        collect_spec(cfg, table, pools, bals, last_ts, now, items) == Err::<
            (u64, Seq<InstrV>),
            ErrV,
        >(ErrV::DuplicateAsset),
{
}

/// Writing a batch of entries of which some is a self-loop fails with the
/// invalid-bridge error, whichever entry fails first.
proof fn lemma_add_all_self_loop(
    cfg: ConfigV,
    pools: Seq<(TokenId, TokenId)>,
    table: Seq<(TokenId, TokenId)>,
    adds: Seq<(TokenId, TokenId)>,
)
    requires
        exists|i: int| 0 <= i < adds.len() && adds[i].0 == adds[i].1,
    ensures
        add_all(cfg, pools, table, adds) matches Err(e) && e is InvalidBridge,
    decreases adds.len(),
{
    let i = choose|i: int| 0 <= i < adds.len() && adds[i].0 == adds[i].1;
    if adds[0].0 == adds[0].1 {
    } else if !crate::bridge::path_ok(table, pools, adds[0].0, adds[0].1, cfg.roids_token, 0) {
    } else {
        assert(adds.drop_first()[i - 1] == adds[i]);
        lemma_add_all_self_loop(
            cfg,
            pools,
            crate::bridge::table_upsert(table, adds[0].0, adds[0].1),
            adds.drop_first(),
        );
    }
}

/// Law: adding a bridge entry whose source equals its bridge always fails
/// with the invalid-bridge error, for the owner as for anyone else.
pub proof fn lemma_self_loop_rejected(
    cfg: ConfigV,
    pools: Seq<(TokenId, TokenId)>,
    table: Seq<(TokenId, TokenId)>,
    sender: Seq<char>,
    adds: Seq<(TokenId, TokenId)>,
    removes: Seq<TokenId>,
)
    requires
        exists|i: int| 0 <= i < adds.len() && adds[i].0 == adds[i].1,
    ensures
        update_bridges_spec(cfg, pools, table, sender, adds, removes) matches Err(e) && (
        e is InvalidBridge || e is Unauthorized),
        sender == cfg.owner ==> (update_bridges_spec(cfg, pools, table, sender, adds, removes)
            matches Err(e) && e is InvalidBridge),
{
    if sender == cfg.owner {
        lemma_add_all_self_loop(cfg, pools, crate::admin::remove_all(table, removes), adds);
    }
}

/// Law: a continuation not issued by the system itself is refused as
/// unauthorized, whatever it carries.
pub proof fn lemma_external_continuation_rejected(
    cfg: ConfigV,
    table: Seq<(TokenId, TokenId)>,
    pools: Seq<(TokenId, TokenId)>,
    bals: Seq<(TokenId, u128)>,
    sender: Seq<char>,
    self_addr: Seq<char>,
    assets: Seq<TokenId>,
    depth: u64,
)
    requires
        sender != self_addr,
    ensures
        continue_spec(cfg, table, pools, bals, sender, self_addr, assets, depth) == Err::<
            Seq<InstrV>,
            ErrV,
        >(ErrV::Unauthorized),
{
}

/// Law: a continuation over a non-empty token set is refused with the
/// depth-exceeded error at the depth ceiling and above; one hop below the
/// ceiling it still succeeds whenever the planner finds a route that emits
/// at least one swap.
pub proof fn lemma_depth_ceiling(
    cfg: ConfigV,
    table: Seq<(TokenId, TokenId)>,
    pools: Seq<(TokenId, TokenId)>,
    bals: Seq<(TokenId, u128)>,
    sender: Seq<char>,
    self_addr: Seq<char>,
    assets: Seq<TokenId>,
    depth: u64,
)
    requires
        sender == self_addr,
        assets.len() > 0,
    ensures
        depth >= MAX_ROUTE_DEPTH ==> continue_spec(
            cfg,
            table,
            pools,
            bals,
            sender,
            self_addr,
            assets,
            depth,
        ) == Err::<Seq<InstrV>, ErrV>(ErrV::DepthExceeded(depth)),
        (depth == MAX_ROUTE_DEPTH - 1 && (plan_items(
            cfg,
            table,
            pools,
            bals,
            uncapped_items(assets),
        ) matches Ok(p) && p.swaps.len() > 0)) ==> continue_spec(
            cfg,
            table,
            pools,
            bals,
            sender,
            self_addr,
            assets,
            depth,
        ) is Ok,
{
}

/// Law: the distribution step is idempotent. One run forwards the whole
/// accumulated balance, so a second run with nothing collected in between
/// finds a zero balance, forwards nothing, and reports no error.
pub proof fn lemma_distribute_idempotent(balance: u128)
    ensures
        distribute_amount(balance_after_distribute(balance)) is None,
{
}

} // verus!
