//! The configuration record and its validation.
//!
//! The record is owned by the persistent state of the contract and mutated
//! only through the administrative path under owner authorization.

use vstd::prelude::*;
use crate::asset::{AssetInfo, TokenId};

verus! {

/// Spread values are expressed in basis points (one hundredth of a percent).
/// The default maximum spread used when none is configured: five percent.
pub const DEFAULT_MAX_SPREAD_BPS: u64 = 500;

/// The largest accepted maximum spread: fifty percent, in basis points.
pub const MAX_ALLOWED_SPREAD_BPS: u64 = 5000;

/// The shortest accepted collection cooldown, in seconds.
pub const MIN_COOLDOWN_SECONDS: u64 = 30;

/// The longest accepted collection cooldown, in seconds.
pub const MAX_COOLDOWN_SECONDS: u64 = 600;

/// The view of an optional token reference.
pub open spec fn opt_token_view(o: Option<AssetInfo>) -> Option<TokenId> {
    match o {
        Some(t) => Some(t@),
        None => None,
    }
}

/// Whether a requested maximum spread is accepted: positive, and at most
/// [`MAX_ALLOWED_SPREAD_BPS`].
pub open spec fn spread_accepted(max_spread: u64) -> bool {
    0 < max_spread <= MAX_ALLOWED_SPREAD_BPS
}

/// Whether a requested cooldown period is accepted: absent, or within the
/// fixed limits.
pub open spec fn cooldown_accepted(collect_cooldown: Option<u64>) -> bool {
    match collect_cooldown {
        Some(cd) => MIN_COOLDOWN_SECONDS <= cd <= MAX_COOLDOWN_SECONDS,
        None => true,
    }
}

/// Mathematical model of a [`Config`].
pub ghost struct ConfigV {
    pub owner: Seq<char>,
    pub factory_contract: Seq<char>,
    pub asteroid_contract: Seq<char>,
    pub default_bridge: Option<TokenId>,
    pub roids_token: TokenId,
    pub max_spread: u64,
    pub collect_cooldown: Option<u64>,
}

/// The main parameters of the routing core.
pub struct Config {
    /// Address that is allowed to set contract parameters.
    pub owner: String,
    /// The factory contract address (the registry the pool gateway answers
    /// for).
    pub factory_contract: String,
    /// The downstream distribution sink that accepts the converted balance.
    pub asteroid_contract: String,
    /// Default bridge token used when a fee token has no bridge-table entry.
    pub default_bridge: Option<AssetInfo>,
    /// The target token all fees are converted into.
    pub roids_token: AssetInfo,
    /// The maximum spread allowed when swapping fee tokens, in basis points.
    pub max_spread: u64,
    /// If set, the minimum number of seconds between accepted collection
    /// cycles.
    pub collect_cooldown: Option<u64>,
}

impl View for Config {
    type V = ConfigV;

    open spec fn view(&self) -> ConfigV {
        ConfigV {
            owner: self.owner@,
            factory_contract: self.factory_contract@,
            asteroid_contract: self.asteroid_contract@,
            default_bridge: opt_token_view(self.default_bridge),
            roids_token: self.roids_token@,
            max_spread: self.max_spread,
            collect_cooldown: self.collect_cooldown,
        }
    }
}

} // verus!
