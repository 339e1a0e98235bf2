//! The batch swap planner.
//!
//! For each `(token, cap)` item the planner computes the spendable amount
//! (the held balance, capped when the cap is positive and below it), skips
//! items whose spendable amount is zero, resolves the next hop for the rest,
//! and returns the swap instructions in invocation order together with the
//! deduplicated set of intermediate bridge tokens they funnel into. A single
//! unroutable or invalid item aborts the whole batch: there is no partial
//! progress.

use vstd::prelude::*;
use crate::asset::{spendable, AssetInfo, AssetWithLimit, ItemV, TokenId};
use crate::bridge::BridgeTable;
use crate::config::{Config, ConfigV};
use crate::error::{ContractError, ErrV};
use crate::instr::{InstrV, Instruction};
use crate::market::{balance_in, BalanceSheet, PoolSet};
use crate::route::{resolve, swap, RouteV, SwapTarget};

verus! {

/// The result of planning a batch: the swap instructions in invocation
/// order, and the distinct intermediate bridge tokens they produce, in first
/// occurrence order.
pub ghost struct PlanV {
    pub swaps: Seq<InstrV>,
    pub bridges: Seq<TokenId>,
}

/// The plan for a batch of items: items are taken in order, items with a
/// zero spendable amount contribute nothing, every other item contributes
/// one swap instruction following the route resolver's decision, and each
/// bridge-bound swap records its bridge token once. The first item the
/// resolver refuses aborts the batch.
pub open spec fn plan_items(
    cfg: ConfigV,
    table: Seq<(TokenId, TokenId)>,
    pools: Seq<(TokenId, TokenId)>,
    bals: Seq<(TokenId, u128)>,
    items: Seq<ItemV>,
) -> Result<PlanV, ErrV>
    decreases items.len(),
{
    if items.len() == 0 {
        Ok(PlanV { swaps: Seq::empty(), bridges: Seq::empty() })
    } else {
        match plan_items(cfg, table, pools, bals, items.drop_last()) {
            Err(e) => Err(e),
            Ok(plan) => {
                let item = items.last();
                let amount = spendable(balance_in(bals, item.token), item.limit);
                if amount == 0 {
                    Ok(plan)
                } else {
                    match resolve(cfg, table, pools, item.token) {
                        RouteV::ToTarget => Ok(
                            PlanV {
                                swaps: plan.swaps.push(
                                    InstrV::Swap {
                                        offer: item.token,
                                        ask: cfg.roids_token,
                                        amount,
                                    },
                                ),
                                bridges: plan.bridges,
                            },
                        ),
                        RouteV::ToBridge(b) => Ok(
                            PlanV {
                                swaps: plan.swaps.push(
                                    InstrV::Swap { offer: item.token, ask: b, amount },
                                ),
                                bridges: if plan.bridges.contains(b) {
                                    plan.bridges
                                } else {
                                    plan.bridges.push(b)
                                },
                            },
                        ),
                        RouteV::Invalid(b) => Err(ErrV::InvalidBridge(item.token, b)),
                        RouteV::Unroutable => Err(ErrV::UnroutableToken(item.token)),
                    }
                }
            },
        }
    }
}

/// Once a prefix of the batch fails, the whole batch fails the same way.
pub proof fn lemma_plan_items_err_extends(
    cfg: ConfigV,
    table: Seq<(TokenId, TokenId)>,
    pools: Seq<(TokenId, TokenId)>,
    bals: Seq<(TokenId, u128)>,
    items: Seq<ItemV>,
    i: int,
)
    requires
        0 <= i <= items.len(),
        plan_items(cfg, table, pools, bals, items.take(i)) is Err,
    ensures
        plan_items(cfg, table, pools, bals, items) == plan_items(
            cfg,
            table,
            pools,
            bals,
            items.take(i),
        ),
    decreases items.len() - i,
{
    if i == items.len() {
        assert(items.take(i) =~= items);
    } else {
        assert(items.take(i + 1).drop_last() =~= items.take(i));
        lemma_plan_items_err_extends(cfg, table, pools, bals, items, i + 1);
    }
}

/// Whether the token `t` occurs in `s`.
fn contains_token(s: &Vec<AssetInfo>, t: &AssetInfo) -> (r: bool)
    ensures
        r == s.deep_view().contains(t@),
{
    let n = s.len();
    let mut i: usize = 0;
    while i < n
        invariant
            0 <= i <= n,
            n == s.len(),
            forall|j: int| 0 <= j < i ==> s.deep_view()[j] != t@,
        decreases n - i,
    {
        if s[i] == *t {
            assert(s.deep_view()[i as int] == t@);
            return true;
        }
        i = i + 1;
    }
    false
}

/// Plans the whole batch: computes each item's spendable amount, resolves a
/// route for every item that has one, and collects the swap instructions and
/// the deduplicated bridge tokens, exactly as [`plan_items`] states.
pub fn swap_assets(
    cfg: &Config,
    table: &BridgeTable,
    pools: &PoolSet,
    balances: &BalanceSheet,
    assets: &Vec<AssetWithLimit>,
) -> (r: Result<(Vec<Instruction>, Vec<AssetInfo>), ContractError>)
    ensures
        ({
            let plan = plan_items(cfg@, table@, pools@, balances@, assets.deep_view());
            match r {
                Ok(out) => plan matches Ok(p) && out.0.deep_view() == p.swaps && out.1.deep_view()
                    == p.bridges,
                Err(e) => plan matches Err(pe) && e@ == pe,
            }
        }),
{
    let mut instrs: Vec<Instruction> = Vec::new();
    let mut bridges: Vec<AssetInfo> = Vec::new();
    let n = assets.len();
    let mut i: usize = 0;
    while i < n
        invariant
            0 <= i <= n,
            n == assets.len(),
            ({
                let plan = plan_items(
                    cfg@,
                    table@,
                    pools@,
                    balances@,
                    assets.deep_view().take(i as int),
                );
                plan matches Ok(p) && instrs.deep_view() =~= p.swaps && bridges.deep_view()
                    =~= p.bridges
            }),
        decreases n - i,
    {
        proof {
            assert(assets.deep_view().take(i as int + 1).drop_last() =~= assets.deep_view().take(
                i as int,
            ));
            assert(assets.deep_view().take(i as int + 1).last() == assets.deep_view()[i as int]);
            assert(assets.deep_view()[i as int] == assets[i as int]@);
        }
        let a = &assets[i];
        let held = balances.balance_of(&a.info);
        let balance = if let Some(limit) = a.limit {
            if limit < held && limit > 0 {
                limit
            } else {
                held
            }
        } else {
            held
        };
        proof {
            assert(balance == spendable(balance_in(balances@, a.info@), a.limit));
        }
        if balance != 0 {
            let ghost pre_instrs = instrs.deep_view();
            let ghost pre_bridges = bridges.deep_view();
            match swap(cfg, table, pools, &a.info, balance) {
                Ok(SwapTarget::Roids(instr)) => {
                    proof {
                        assert(instr@ == (InstrV::Swap {
                            offer: a.info@,
                            ask: cfg@.roids_token,
                            amount: balance,
                        }));
                    }
                    instrs.push(instr);
                    proof {
                        assert(instrs.deep_view() =~= pre_instrs.push(instr@));
                    }
                },
                Ok(SwapTarget::Bridge { asset, instr }) => {
                    let ghost instr_v = instr@;
                    instrs.push(instr);
                    proof {
                        assert(instrs.deep_view() =~= pre_instrs.push(instr_v));
                    }
                    if !contains_token(&bridges, &asset) {
                        let ghost asset_v = asset@;
                        bridges.push(asset);
                        proof {
                            assert(bridges.deep_view() =~= pre_bridges.push(asset_v));
                        }
                    }
                },
                Err(e) => {
                    proof {
                        lemma_plan_items_err_extends(
                            cfg@,
                            table@,
                            pools@,
                            balances@,
                            assets.deep_view(),
                            i as int + 1,
                        );
                    }
                    return Err(e);
                },
            }
        }
        i = i + 1;
    }
    proof {
        assert(assets.deep_view().take(n as int) =~= assets.deep_view());
    }
    Ok((instrs, bridges))
}

} // verus!
