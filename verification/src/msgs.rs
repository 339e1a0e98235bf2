//! The request and response types of the external interface.

use vstd::prelude::*;
use crate::asset::{Asset, AssetInfo, AssetWithLimit, TokenId};

verus! {

/// Mathematical model of an [`InstantiateMsg`].
pub ghost struct InstantiateMsgV {
    pub owner: Seq<char>,
    pub default_bridge: Option<TokenId>,
    pub roids_token: TokenId,
    pub factory_contract: Seq<char>,
    pub asteroid_contract: Seq<char>,
    pub max_spread: Option<u64>,
    pub collect_cooldown: Option<u64>,
}

/// The parameters a new instance is created with.
pub struct InstantiateMsg {
    /// Address that is allowed to change contract parameters.
    pub owner: String,
    /// Default bridge token, if any.
    pub default_bridge: Option<AssetInfo>,
    /// The target token all fees are converted into.
    pub roids_token: AssetInfo,
    /// The factory contract address.
    pub factory_contract: String,
    /// The downstream distribution sink.
    pub asteroid_contract: String,
    /// The maximum spread for fee-token swaps, in basis points; a default
    /// applies when absent.
    pub max_spread: Option<u64>,
    /// The collection cooldown period in seconds, if any.
    pub collect_cooldown: Option<u64>,
}

impl View for InstantiateMsg {
    type V = InstantiateMsgV;

    open spec fn view(&self) -> InstantiateMsgV {
        InstantiateMsgV {
            owner: self.owner@,
            default_bridge: crate::config::opt_token_view(self.default_bridge),
            roids_token: self.roids_token@,
            factory_contract: self.factory_contract@,
            asteroid_contract: self.asteroid_contract@,
            max_spread: self.max_spread,
            collect_cooldown: self.collect_cooldown,
        }
    }
}

/// The operations the routing core executes. The administrative ownership
/// handover (propose, drop, claim) is an external collaborator of the core
/// and lives with the surrounding runtime.
pub enum ExecuteMsg {
    /// Collects and swaps fee tokens to the target token.
    Collect {
        /// The fee tokens to swap, each with an optional cap.
        assets: Vec<AssetWithLimit>,
    },
    /// Updates general settings.
    UpdateConfig {
        /// The factory contract address.
        factory_contract: Option<String>,
        /// The default bridge token.
        basic_asset: Option<AssetInfo>,
        /// The maximum spread for fee-token swaps, in basis points.
        max_spread: Option<u64>,
        /// The collection cooldown period in seconds.
        collect_cooldown: Option<u64>,
        /// The target token.
        roids_token: Option<AssetInfo>,
        /// The downstream distribution sink.
        asteroid_contract: Option<String>,
    },
    /// Adds or removes bridge entries used to route fee tokens.
    UpdateBridges {
        add: Option<Vec<(AssetInfo, AssetInfo)>>,
        remove: Option<Vec<AssetInfo>>,
    },
    /// Continues routing over intermediate bridge tokens; accepted only from
    /// the system's own identity.
    SwapBridgeAssets { assets: Vec<AssetInfo>, depth: u64 },
    /// Runs the distribution step; accepted only from the system's own
    /// identity.
    DistributeAstro {},
}

/// The read-only queries.
pub enum QueryMsg {
    /// The configuration record.
    Config {},
    /// The held balance of each listed token, zero balances left out.
    Balances { assets: Vec<AssetInfo> },
    /// Every bridge-table entry, as source and bridge identifier strings.
    Bridges {},
}

/// The configuration record, as a query answer.
pub struct ConfigResponse {
    /// Address that is allowed to update contract parameters.
    pub owner: String,
    /// Default bridge token, if any.
    pub default_bridge: Option<AssetInfo>,
    /// The target token.
    pub roids_token: AssetInfo,
    /// The factory contract address.
    pub factory_contract: String,
    /// The downstream distribution sink.
    pub asteroid_contract: String,
    /// The maximum spread for fee-token swaps, in basis points.
    pub max_spread: u64,
}

/// Multiple token balances, as a query answer.
pub struct BalancesResponse {
    pub balances: Vec<Asset>,
}

/// A migration message; the core carries no migration state.
pub struct MigrateMsg {}

/// One answer per query.
pub enum QueryAnswer {
    Config(ConfigResponse),
    Balances(BalancesResponse),
    Bridges(Vec<(String, String)>),
}

} // verus!
