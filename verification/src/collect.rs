//! The entry point that starts a collection cycle.
//!
//! The cooldown gate runs first: when a cooldown period is configured and has
//! not elapsed, the request is rejected with the next-eligible timestamp
//! surfaced to the caller. The duplicate guard then rejects a request naming
//! the same token twice, before any balance is read. Items naming the target
//! token itself are left out of the batch; the rest is planned, and one
//! follow-up instruction is appended after every swap: continue routing over
//! the produced bridge tokens at the first hop depth, or, when no bridge
//! token was produced, invoke the distribution step. On acceptance the
//! returned timestamp is the current time; an error aborts the whole
//! invocation, and the caller keeps its stored state.

use vstd::prelude::*;
use crate::asset::{AssetWithLimit, ItemV, TokenId};
use crate::bridge::BridgeTable;
use crate::config::{Config, ConfigV};
use crate::error::{ContractError, ErrV};
use crate::instr::{InstrV, Instruction};
use crate::market::{BalanceSheet, PoolSet};
use crate::plan::{plan_items, swap_assets};

verus! {

/// The hop depth carried by the first continuation of a collection cycle.
pub const INITIAL_ROUTE_DEPTH: u64 = 1;

/// What the cooldown gate answers: nothing when the cycle may start, or the
/// next-eligible timestamp when it may not.
pub open spec fn cooldown_gate(cooldown: Option<u64>, last_ts: u64, now: u64) -> Option<u64> {
    match cooldown {
        Some(cd) => if now < last_ts + cd {
            Some((last_ts + cd) as u64)
        } else {
            None
        },
        None => None,
    }
}

/// Whether some token occurs twice in the batch.
pub open spec fn dup_exists(items: Seq<ItemV>) -> bool {
    exists|i: int, j: int| 0 <= i < j < items.len() && items[i].token == items[j].token
}

/// The batch without the items that name the target token itself.
pub open spec fn non_target(items: Seq<ItemV>, target: TokenId) -> Seq<ItemV>
    decreases items.len(),
{
    if items.len() == 0 {
        items
    } else {
        let rest = non_target(items.drop_last(), target);
        if items.last().token != target {
            rest.push(items.last())
        } else {
            rest
        }
    }
}

/// The follow-up instruction of a cycle: continue routing over the produced
/// bridge tokens at the given depth, or invoke the distribution step when
/// none was produced.
pub open spec fn followup_instr(bridges: Seq<TokenId>, depth: u64) -> InstrV {
    if bridges.len() > 0 {
        InstrV::ContinueRouting { assets: bridges, depth }
    } else {
        InstrV::Distribute
    }
}

/// What a collection request returns: the updated last-collection timestamp
/// and the emitted instructions, or the error that aborts the whole request.
pub open spec fn collect_spec(
    cfg: ConfigV,
    table: Seq<(TokenId, TokenId)>,
    pools: Seq<(TokenId, TokenId)>,
    bals: Seq<(TokenId, u128)>,
    last_ts: u64,
    now: u64,
    items: Seq<ItemV>,
) -> Result<(u64, Seq<InstrV>), ErrV> {
    match cooldown_gate(cfg.collect_cooldown, last_ts, now) {
        Some(next) => Err(ErrV::CooldownActive { next_collect_ts: next }),
        None => if dup_exists(items) {
            Err(ErrV::DuplicateAsset)
        } else {
            match plan_items(cfg, table, pools, bals, non_target(items, cfg.roids_token)) {
                Err(e) => Err(e),
                Ok(p) => Ok(
                    (now, p.swaps.push(followup_instr(p.bridges, INITIAL_ROUTE_DEPTH))),
                ),
            }
        },
    }
}

/// Whether the batch names some token twice.
fn has_duplicate(assets: &Vec<AssetWithLimit>) -> (r: bool)
    ensures
        r == dup_exists(assets.deep_view()),
{
    let n = assets.len();
    let mut i: usize = 0;
    while i < n
        invariant
            0 <= i <= n,
            n == assets.len(),
            forall|p: int, q: int|
                0 <= p < q < n && p < i ==> assets.deep_view()[p].token
                    != assets.deep_view()[q].token,
        decreases n - i,
    {
        let mut j: usize = i + 1;
        while j < n
            invariant
                0 <= i < j <= n,
                n == assets.len(),
                forall|q: int|
                    i < q < j ==> assets.deep_view()[i as int].token
                        != assets.deep_view()[q].token,
            decreases n - j,
        {
            if assets[i].info == assets[j].info {
                assert(assets.deep_view()[i as int].token == assets.deep_view()[j as int].token);
                return true;
            }
            j = j + 1;
        }
        i = i + 1;
    }
    false
}

/// Starts a collection cycle, exactly as [`collect_spec`] states: enforces
/// the cooldown, rejects duplicates, plans the batch over every named token
/// but the target token, and appends the follow-up instruction. On success
/// the returned timestamp replaces the last-collection timestamp; on failure
/// the caller keeps its previous state.
pub fn collect(
    cfg: &Config,
    table: &BridgeTable,
    pools: &PoolSet,
    balances: &BalanceSheet,
    last_ts: u64,
    now: u64,
    assets: &Vec<AssetWithLimit>,
) -> (r: Result<(u64, Vec<Instruction>), ContractError>)
    requires
        cfg@.collect_cooldown matches Some(cd) ==> last_ts + cd <= u64::MAX,
    ensures
        ({
            let s = collect_spec(
                cfg@,
                table@,
                pools@,
                balances@,
                last_ts,
                now,
                assets.deep_view(),
            );
            match r {
                Ok(out) => s matches Ok(sv) && out.0 == sv.0 && out.1.deep_view() == sv.1,
                Err(e) => s matches Err(ev) && e@ == ev,
            }
        }),
{
    if let Some(cd) = cfg.collect_cooldown {
        let next = last_ts + cd;
        if now < next {
            return Err(ContractError::CooldownActive { next_collect_ts: next });
        }
    }
    if has_duplicate(assets) {
        return Err(ContractError::DuplicateAsset);
    }
    let n = assets.len();
    let mut batch: Vec<AssetWithLimit> = Vec::new();
    let mut i: usize = 0;
    while i < n
        invariant
            0 <= i <= n,
            n == assets.len(),
            batch.deep_view() =~= non_target(
                assets.deep_view().take(i as int),
                cfg@.roids_token,
            ),
        decreases n - i,
    {
        proof {
            assert(assets.deep_view().take(i as int + 1).drop_last() =~= assets.deep_view().take(
                i as int,
            ));
            assert(assets.deep_view().take(i as int + 1).last() == assets.deep_view()[i as int]);
            assert(assets.deep_view()[i as int] == assets[i as int]@);
        }
        let a = &assets[i];
        if !(a.info == cfg.roids_token) {
            let ghost pre = batch.deep_view();
            batch.push(a.clone());
            proof {
                assert(batch.deep_view() =~= pre.push(a@));
            }
        }
        i = i + 1;
    }
    proof {
        assert(assets.deep_view().take(n as int) =~= assets.deep_view());
    }
    match swap_assets(cfg, table, pools, balances, &batch) {
        Err(e) => Err(e),
        Ok((mut instrs, bridges)) => {
            let ghost pre_instrs = instrs.deep_view();
            if bridges.len() > 0 {
                instrs.push(
                    Instruction::ContinueRouting { assets: bridges, depth: INITIAL_ROUTE_DEPTH },
                );
            } else {
                instrs.push(Instruction::Distribute);
            }
            proof {
                let s = collect_spec(
                    cfg@,
                    table@,
                    pools@,
                    balances@,
                    last_ts,
                    now,
                    assets.deep_view(),
                );
                assert(instrs.deep_view() =~= s->Ok_0.1);
            }
            Ok((now, instrs))
        },
    }
}

} // verus!
