//! The error taxonomy of the routing core.
//!
//! Every error aborts the whole invocation: the caller keeps its previous
//! state, so no partial effect of a failed operation ever persists.

use vstd::prelude::*;
use crate::asset::{AssetInfo, TokenId};

verus! {

/// Mathematical model of a [`ContractError`].
pub ghost enum ErrV {
    Unauthorized,
    CooldownActive { next_collect_ts: u64 },
    DuplicateAsset,
    UnroutableToken(TokenId),
    InvalidBridge(TokenId, TokenId),
    DepthExceeded(u64),
    InternalInconsistency,
    IncorrectMaxSpread,
    IncorrectCooldown,
    StateError,
}

/// Everything that can go wrong in the routing core.
#[derive(Debug)]
pub enum ContractError {
    /// The caller lacks the required identity (owner, or the system itself).
    Unauthorized,
    /// A collection cycle was started before the cooldown period elapsed;
    /// carries the earliest timestamp at which the next cycle is accepted.
    CooldownActive { next_collect_ts: u64 },
    /// A collection request names the same token twice.
    DuplicateAsset,
    /// No usable path exists from the carried token to the target token.
    UnroutableToken(AssetInfo),
    /// A bridge-table entry is a self-loop, or its path does not reach the
    /// target token within the lookup bound; carries the source token and its
    /// bridge token.
    InvalidBridge(AssetInfo, AssetInfo),
    /// A continuation arrived at the depth ceiling; carries the depth reached.
    DepthExceeded(u64),
    /// A continuation over a non-empty token set produced no instruction.
    InternalInconsistency,
    /// A maximum spread outside the accepted range was supplied.
    IncorrectMaxSpread,
    /// A cooldown period outside the accepted range was supplied.
    IncorrectCooldown,
    /// A storage fault in the surrounding runtime; never produced by the
    /// routing core itself.
    StateError,
}

impl View for ContractError {
    type V = ErrV;

    open spec fn view(&self) -> ErrV {
        match self {
            ContractError::Unauthorized => ErrV::Unauthorized,
            ContractError::CooldownActive { next_collect_ts } => ErrV::CooldownActive {
                next_collect_ts: *next_collect_ts,
            },
            ContractError::DuplicateAsset => ErrV::DuplicateAsset,
            ContractError::UnroutableToken(t) => ErrV::UnroutableToken(t@),
            ContractError::InvalidBridge(s, b) => ErrV::InvalidBridge(s@, b@),
            ContractError::DepthExceeded(d) => ErrV::DepthExceeded(*d),
            ContractError::InternalInconsistency => ErrV::InternalInconsistency,
            ContractError::IncorrectMaxSpread => ErrV::IncorrectMaxSpread,
            ContractError::IncorrectCooldown => ErrV::IncorrectCooldown,
            ContractError::StateError => ErrV::StateError,
        }
    }
}

impl ContractError {
    /// A human-readable description of the error.
    pub fn describe(&self) -> String {
        match self {
            ContractError::Unauthorized => "unauthorized".to_string(),
            ContractError::CooldownActive { next_collect_ts: _ } => "collect cooldown is still active".to_string(),
            ContractError::DuplicateAsset => "duplicate asset in the request".to_string(),
            ContractError::UnroutableToken(t) => t.id_string(),
            ContractError::InvalidBridge(s, _) => s.id_string(),
            ContractError::DepthExceeded(_) => "maximum route depth reached".to_string(),
            ContractError::InternalInconsistency => "swap produced no messages".to_string(),
            ContractError::IncorrectMaxSpread => "incorrect max spread".to_string(),
            ContractError::IncorrectCooldown => "incorrect cooldown period".to_string(),
            ContractError::StateError => "state access failed".to_string(),
        }
    }
}

} // verus!
