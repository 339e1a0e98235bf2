//! Fee-collection and multi-hop swap-routing core for a decentralized-exchange
//! treasury process.
//!
//! The library accumulates miscellaneous fee tokens, converts them into a
//! single target token through a chain of liquidity-pool swaps, and hands the
//! result to a downstream distribution sink. All routing decisions are pure
//! functions over explicit snapshots of the persistent state (configuration,
//! bridge table, last-collection timestamp) and of the external world (pool
//! existence, token balances); the surrounding runtime performs the actual
//! queries, storage writes and message dispatch.

pub mod admin;
pub mod asset;
pub mod bridge;
pub mod collect;
pub mod config;
pub mod dispatch;
pub mod error;
pub mod instr;
pub mod laws;
pub mod market;
pub mod msgs;
pub mod plan;
pub mod route;
pub mod state;

pub use asset::{Asset, AssetInfo, AssetWithLimit, TokenId};
pub use bridge::{BridgeTable, MAX_BRIDGE_LOOKUP_DEPTH};
pub use collect::{collect, INITIAL_ROUTE_DEPTH};
pub use config::Config;
pub use dispatch::{distribute, distribute_roids, swap_bridge_assets, MAX_ROUTE_DEPTH};
pub use error::ContractError;
pub use instr::Instruction;
pub use market::{BalanceSheet, PoolSet};
pub use msgs::{
    BalancesResponse, ConfigResponse, ExecuteMsg, InstantiateMsg, MigrateMsg, QueryAnswer,
    QueryMsg,
};
pub use plan::swap_assets;
pub use route::{swap, SwapTarget};
pub use state::{execute, instantiate, query, MakerState};
