//! The route resolver: the next hop for one token and amount.
//!
//! Resolution order, first match wins:
//! 1. the bridge-table entry for the token, after re-validating that its path
//!    still terminates at the target token;
//! 2. a pool against the configured default bridge, when the token has no
//!    table entry and is not itself the default bridge;
//! 3. a direct pool against the target token;
//! 4. otherwise the token is unroutable.

use vstd::prelude::*;
use crate::asset::{AssetInfo, TokenId};
use crate::bridge::{bridge_path_valid, path_ok, table_bridge_of, BridgeTable};
use crate::config::{Config, ConfigV};
use crate::error::{ContractError, ErrV};
use crate::instr::{InstrV, Instruction};
use crate::market::{pool_listed, PoolSet};

verus! {

/// The decision the route resolver takes for one token.
pub ghost enum RouteV {
    /// Swap straight to the target token.
    ToTarget,
    /// Swap to the carried intermediate bridge token.
    ToBridge(TokenId),
    /// A bridge-table entry to the carried bridge token exists, but its path
    /// no longer terminates at the target token within the lookup bound.
    Invalid(TokenId),
    /// No usable path exists.
    Unroutable,
}

/// The route resolver's decision for `from`, over the given configuration,
/// bridge table and pool snapshot.
pub open spec fn resolve(
    cfg: ConfigV,
    table: Seq<(TokenId, TokenId)>,
    pools: Seq<(TokenId, TokenId)>,
    from: TokenId,
) -> RouteV {
    match table_bridge_of(table, from) {
        Some(bridge) => if path_ok(table, pools, from, bridge, cfg.roids_token, 0) {
            if bridge == cfg.roids_token {
                RouteV::ToTarget
            } else {
                RouteV::ToBridge(bridge)
            }
        } else {
            RouteV::Invalid(bridge)
        },
        None => match cfg.default_bridge {
            Some(db) => if from != db && pool_listed(pools, from, db) {
                RouteV::ToBridge(db)
            } else if pool_listed(pools, from, cfg.roids_token) {
                RouteV::ToTarget
            } else {
                RouteV::Unroutable
            },
            None => if pool_listed(pools, from, cfg.roids_token) {
                RouteV::ToTarget
            } else {
                RouteV::Unroutable
            },
        },
    }
}

/// A resolved swap: either straight to the target token, or to an
/// intermediate bridge token that must be routed further.
pub enum SwapTarget {
    /// The swap converts to the target token.
    Roids(Instruction),
    /// The swap converts to the carried bridge token.
    Bridge { asset: AssetInfo, instr: Instruction },
}

/// Resolves the next hop for `amount_in` of `from` and builds the swap
/// instruction.
pub fn swap(
    cfg: &Config,
    table: &BridgeTable,
    pools: &PoolSet,
    from: &AssetInfo,
    amount_in: u128,
) -> (r: Result<SwapTarget, ContractError>)
    requires
        amount_in > 0,
    ensures
        ({
            let route = resolve(cfg@, table@, pools@, from@);
            match route {
                RouteV::ToTarget => r matches Ok(SwapTarget::Roids(instr)) && instr@ == (
                InstrV::Swap { offer: from@, ask: cfg@.roids_token, amount: amount_in }),
                RouteV::ToBridge(b) => r matches Ok(SwapTarget::Bridge { asset, instr })
                    && asset@ == b && instr@ == (InstrV::Swap {
                    offer: from@,
                    ask: b,
                    amount: amount_in,
                }),
                RouteV::Invalid(b) => r matches Err(e) && e@ == ErrV::InvalidBridge(from@, b),
                RouteV::Unroutable => r matches Err(e) && e@ == ErrV::UnroutableToken(from@),
            }
        }),
{
    match table.bridge_of(from) {
        Some(bridge_token) => {
            if !bridge_path_valid(table, pools, from, &bridge_token, &cfg.roids_token, 0) {
                return Err(ContractError::InvalidBridge(from.clone(), bridge_token));
            }
            let instr = Instruction::Swap {
                offer: from.clone(),
                ask: bridge_token.clone(),
                amount: amount_in,
            };
            if bridge_token == cfg.roids_token {
                Ok(SwapTarget::Roids(instr))
            } else {
                Ok(SwapTarget::Bridge { asset: bridge_token, instr })
            }
        },
        None => {
            match &cfg.default_bridge {
                Some(db) => {
                    if !(*from == *db) && pools.has_pool(from, db) {
                        let instr = Instruction::Swap {
                            offer: from.clone(),
                            ask: db.clone(),
                            amount: amount_in,
                        };
                        return Ok(SwapTarget::Bridge { asset: db.clone(), instr });
                    }
                    if pools.has_pool(from, &cfg.roids_token) {
                        Ok(
                            SwapTarget::Roids(
                                Instruction::Swap {
                                    offer: from.clone(),
                                    ask: cfg.roids_token.clone(),
                                    amount: amount_in,
                                },
                            ),
                        )
                    } else {
                        Err(ContractError::UnroutableToken(from.clone()))
                    }
                },
                None => {
                    if pools.has_pool(from, &cfg.roids_token) {
                        Ok(
                            SwapTarget::Roids(
                                Instruction::Swap {
                                    offer: from.clone(),
                                    ask: cfg.roids_token.clone(),
                                    amount: amount_in,
                                },
                            ),
                        )
                    } else {
                        Err(ContractError::UnroutableToken(from.clone()))
                    }
                },
            }
        },
    }
}

} // verus!
