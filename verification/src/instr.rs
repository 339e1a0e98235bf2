//! The instructions a routing cycle emits.
//!
//! The core never performs a swap or a transfer itself: it returns a list of
//! instructions, and the surrounding runtime turns each into a message of the
//! execution substrate. Instructions execute in list order; the follow-up
//! instruction of a cycle (continue routing, or distribute) is always last,
//! so swapped balances exist before they are routed further.

use vstd::prelude::*;
use crate::asset::{AssetInfo, TokenId};

verus! {

/// Mathematical model of an [`Instruction`].
pub ghost enum InstrV {
    Swap { offer: TokenId, ask: TokenId, amount: u128 },
    ContinueRouting { assets: Seq<TokenId>, depth: u64 },
    Distribute,
    Transfer { amount: u128 },
}

/// One step the surrounding runtime must perform on behalf of the core.
pub enum Instruction {
    /// Swap `amount` of the `offer` token into the `ask` token through their
    /// liquidity pool, under the configured maximum spread.
    Swap { offer: AssetInfo, ask: AssetInfo, amount: u128 },
    /// Re-enter the planner over the given intermediate tokens at the given
    /// hop depth. Accepted only when the system itself issues it.
    ContinueRouting { assets: Vec<AssetInfo>, depth: u64 },
    /// Invoke the distribution step: forward whatever target-token balance
    /// has accumulated to the downstream sink.
    Distribute,
    /// Hand `amount` of the target token to the downstream sink.
    Transfer { amount: u128 },
}

impl View for Instruction {
    type V = InstrV;

    open spec fn view(&self) -> InstrV {
        match self {
            Instruction::Swap { offer, ask, amount } => InstrV::Swap {
                offer: offer@,
                ask: ask@,
                amount: *amount,
            },
            Instruction::ContinueRouting { assets, depth } => InstrV::ContinueRouting {
                assets: assets.deep_view(),
                depth: *depth,
            },
            Instruction::Distribute => InstrV::Distribute,
            Instruction::Transfer { amount } => InstrV::Transfer { amount: *amount },
        }
    }
}

impl DeepView for Instruction {
    type V = InstrV;

    open spec fn deep_view(&self) -> InstrV {
        self@
    }
}

} // verus!
