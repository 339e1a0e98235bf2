//! The bounded recursive dispatcher and the distribution step.
//!
//! A multi-hop conversion is not an in-process loop: each hop ends its
//! invocation by emitting a continuation instruction over the bridge tokens
//! it produced, and the next hop runs as a separate, later invocation. A
//! continuation is accepted only from the system's own identity, never from
//! an external caller, and is refused once the hop depth reaches a fixed
//! ceiling. The distribution step forwards whatever target-token balance has
//! accumulated to the downstream sink, and does nothing when there is none.

use vstd::prelude::*;
use crate::asset::{AssetInfo, AssetWithLimit, ItemV, TokenId};
use crate::bridge::BridgeTable;
use crate::collect::followup_instr;
use crate::config::{Config, ConfigV};
use crate::error::{ContractError, ErrV};
use crate::instr::{InstrV, Instruction};
use crate::market::{BalanceSheet, PoolSet};
use crate::plan::{plan_items, swap_assets};

verus! {

/// The hop-depth ceiling: a continuation at this depth is refused.
pub const MAX_ROUTE_DEPTH: u64 = 3;

/// The batch the dispatcher re-plans: every carried token, with no cap.
pub open spec fn uncapped_items(assets: Seq<TokenId>) -> Seq<ItemV> {
    assets.map_values(|t: TokenId| ItemV { token: t, limit: None })
}

/// What a continuation returns: the emitted instructions, or the error that
/// aborts it. Only the system itself may continue; an empty token set is a
/// no-op; at the depth ceiling the continuation is refused; and a non-empty
/// token set that yields no swap at all is an internal inconsistency, since
/// the previous hop expected forward progress.
pub open spec fn continue_spec(
    cfg: ConfigV,
    table: Seq<(TokenId, TokenId)>,
    pools: Seq<(TokenId, TokenId)>,
    bals: Seq<(TokenId, u128)>,
    sender: Seq<char>,
    self_addr: Seq<char>,
    assets: Seq<TokenId>,
    depth: u64,
) -> Result<Seq<InstrV>, ErrV> {
    if sender != self_addr {
        Err(ErrV::Unauthorized)
    } else if assets.len() == 0 {
        Ok(Seq::empty())
    } else if depth >= MAX_ROUTE_DEPTH {
        Err(ErrV::DepthExceeded(depth))
    } else {
        match plan_items(cfg, table, pools, bals, uncapped_items(assets)) {
            Err(e) => Err(e),
            Ok(p) => if p.swaps.len() == 0 {
                Err(ErrV::InternalInconsistency)
            } else {
                Ok(p.swaps.push(followup_instr(p.bridges, (depth + 1) as u64)))
            },
        }
    }
}

/// Runs one continuation hop, exactly as [`continue_spec`] states: checks
/// that the caller is the system itself, re-plans the carried bridge tokens
/// with no caps, and appends the next follow-up instruction at depth
/// `depth + 1`.
pub fn swap_bridge_assets(
    cfg: &Config,
    table: &BridgeTable,
    pools: &PoolSet,
    balances: &BalanceSheet,
    sender: &String,
    self_addr: &String,
    assets: &Vec<AssetInfo>,
    depth: u64,
) -> (r: Result<Vec<Instruction>, ContractError>)
    ensures
        ({
            let s = continue_spec(
                cfg@,
                table@,
                pools@,
                balances@,
                sender@,
                self_addr@,
                assets.deep_view(),
                depth,
            );
            match r {
                Ok(out) => s matches Ok(sv) && out.deep_view() == sv,
                Err(e) => s matches Err(ev) && e@ == ev,
            }
        }),
        sender@ != self_addr@ ==> (r matches Err(e) && e@ == ErrV::Unauthorized),
{
    if !(*sender == *self_addr) {
        return Err(ContractError::Unauthorized);
    }
    if assets.len() == 0 {
        return Ok(Vec::new());
    }
    if depth >= MAX_ROUTE_DEPTH {
        return Err(ContractError::DepthExceeded(depth));
    }
    let n = assets.len();
    let mut batch: Vec<AssetWithLimit> = Vec::new();
    let mut i: usize = 0;
    while i < n
        invariant
            0 <= i <= n,
            n == assets.len(),
            batch.deep_view().len() == i,
            forall|j: int|
                0 <= j < i ==> batch.deep_view()[j] == (ItemV {
                    token: assets.deep_view()[j],
                    limit: None,
                }),
        decreases n - i,
    {
        let ghost pre = batch.deep_view();
        batch.push(AssetWithLimit { info: assets[i].clone(), limit: None });
        proof {
            assert(batch.deep_view() =~= pre.push(
                ItemV { token: assets.deep_view()[i as int], limit: None },
            ));
        }
        i = i + 1;
    }
    proof {
        assert(batch.deep_view() =~= uncapped_items(assets.deep_view()));
    }
    match swap_assets(cfg, table, pools, balances, &batch) {
        Err(e) => Err(e),
        Ok((mut instrs, bridges)) => {
            if instrs.len() == 0 {
                return Err(ContractError::InternalInconsistency);
            }
            let ghost pre_instrs = instrs.deep_view();
            if bridges.len() > 0 {
                instrs.push(Instruction::ContinueRouting { assets: bridges, depth: depth + 1 });
            } else {
                instrs.push(Instruction::Distribute);
            }
            proof {
                let s = continue_spec(
                    cfg@,
                    table@,
                    pools@,
                    balances@,
                    sender@,
                    self_addr@,
                    assets.deep_view(),
                    depth,
                );
                assert(s is Ok);
                assert(instrs.deep_view() =~= s->Ok_0);
            }
            Ok(instrs)
        },
    }
}

/// The amount the distribution step forwards to the downstream sink: the
/// whole accumulated target-token balance, or nothing when it is zero.
pub open spec fn distribute_amount(balance: u128) -> Option<u128> {
    if balance == 0 {
        None
    } else {
        Some(balance)
    }
}

/// The target-token balance left after the distribution step: the sink
/// receives everything, so nothing remains.
pub open spec fn balance_after_distribute(balance: u128) -> u128 {
    0
}

/// Plans the distribution step over the accumulated target-token balance:
/// one transfer of the whole balance to the downstream sink, or no
/// instruction at all when the balance is zero.
pub fn distribute(balance: u128) -> (r: Vec<Instruction>)
    ensures
        balance == 0 ==> r.deep_view() == Seq::<InstrV>::empty(),
        balance != 0 ==> r.deep_view() == seq![InstrV::Transfer { amount: balance }],
{
    let mut instrs: Vec<Instruction> = Vec::new();
    if balance != 0 {
        instrs.push(Instruction::Transfer { amount: balance });
        proof {
            assert(instrs.deep_view() =~= seq![InstrV::Transfer { amount: balance }]);
        }
    } else {
        proof {
            assert(instrs.deep_view() =~= Seq::<InstrV>::empty());
        }
    }
    instrs
}

/// Runs the distribution step for the system itself: refused for any other
/// caller, a no-op when nothing has accumulated.
pub fn distribute_roids(sender: &String, self_addr: &String, balance: u128) -> (r: Result<
    Vec<Instruction>,
    ContractError,
>)
    ensures
        sender@ != self_addr@ ==> (r matches Err(e) && e@ == ErrV::Unauthorized),
        sender@ == self_addr@ ==> (r matches Ok(out) && out.deep_view() == (match distribute_amount(
            balance,
        ) {
            Some(a) => seq![InstrV::Transfer { amount: a }],
            None => Seq::<InstrV>::empty(),
        })),
{
    if !(*sender == *self_addr) {
        return Err(ContractError::Unauthorized);
    }
    Ok(distribute(balance))
}

} // verus!
