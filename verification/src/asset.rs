//! Token references and the batch items built from them.
//!
//! A token is either a native chain asset (identified by its denomination) or
//! a contract-based token (identified by the token contract address). Equality
//! is structural; the identifying string is the canonical form used for
//! storage keys.

use vstd::prelude::*;

verus! {

/// Mathematical model of a token reference: the variant together with the
/// identifying character sequence.
pub ghost enum TokenId {
    Native(Seq<char>),
    Contract(Seq<char>),
}

/// A token reference: a native chain asset or a contract-based token.
#[derive(Debug)]
pub enum AssetInfo {
    /// A native chain asset, identified by its denomination.
    Native { denom: String },
    /// A contract-based token, identified by the token contract address.
    Contract { contract_addr: String },
}

impl TokenId {
    /// The identifying character sequence, the canonical textual form.
    pub open spec fn text(self) -> Seq<char> {
        match self {
            TokenId::Native(s) => s,
            TokenId::Contract(s) => s,
        }
    }
}

impl View for AssetInfo {
    type V = TokenId;

    open spec fn view(&self) -> TokenId {
        match self {
            AssetInfo::Native { denom } => TokenId::Native(denom@),
            AssetInfo::Contract { contract_addr } => TokenId::Contract(contract_addr@),
        }
    }
}

impl DeepView for AssetInfo {
    type V = TokenId;

    open spec fn deep_view(&self) -> TokenId {
        self@
    }
}

impl PartialEq for AssetInfo {
    fn eq(&self, other: &AssetInfo) -> (r: bool) {
        match (self, other) {
            (AssetInfo::Native { denom: a }, AssetInfo::Native { denom: b }) => *a == *b,
            (
                AssetInfo::Contract { contract_addr: a },
                AssetInfo::Contract { contract_addr: b },
            ) => *a == *b,
            _ => false,
        }
    }
}

impl vstd::std_specs::cmp::PartialEqSpecImpl for AssetInfo {
    open spec fn obeys_eq_spec() -> bool {
        true
    }

    open spec fn eq_spec(&self, other: &AssetInfo) -> bool {
        self@ == other@
    }
}

impl Clone for AssetInfo {
    fn clone(&self) -> (r: Self)
        ensures
            r == *self,
    {
        match self {
            AssetInfo::Native { denom } => AssetInfo::Native { denom: denom.clone() },
            AssetInfo::Contract { contract_addr } => AssetInfo::Contract {
                contract_addr: contract_addr.clone(),
            },
        }
    }
}

impl AssetInfo {
    /// The identifying string: the canonical form used for storage keys and
    /// reports.
    pub fn id_string(&self) -> (r: String)
        ensures
            r@ == self@.text(),
    {
        match self {
            AssetInfo::Native { denom } => denom.clone(),
            AssetInfo::Contract { contract_addr } => contract_addr.clone(),
        }
    }
}

/// A token together with a held amount, as reported by a balance query.
pub struct Asset {
    /// The token the amount is denominated in.
    pub info: AssetInfo,
    /// The held amount.
    pub amount: u128,
}

/// Mathematical model of an [`Asset`].
pub ghost struct AssetV {
    pub token: TokenId,
    pub amount: u128,
}

impl View for Asset {
    type V = AssetV;

    open spec fn view(&self) -> AssetV {
        AssetV { token: self.info@, amount: self.amount }
    }
}

impl DeepView for Asset {
    type V = AssetV;

    open spec fn deep_view(&self) -> AssetV {
        self@
    }
}

/// One item of a collection request: a token to swap and an optional cap on
/// how much of the held balance is spent.
pub struct AssetWithLimit {
    /// The fee token to swap.
    pub info: AssetInfo,
    /// Optional cap on the amount swapped. A zero cap, or a cap at or above
    /// the held balance, is ignored.
    pub limit: Option<u128>,
}

/// Mathematical model of an [`AssetWithLimit`].
pub ghost struct ItemV {
    pub token: TokenId,
    pub limit: Option<u128>,
}

impl Clone for AssetWithLimit {
    fn clone(&self) -> (r: Self)
        ensures
            r == *self,
    {
        AssetWithLimit { info: self.info.clone(), limit: self.limit }
    }
}

impl View for AssetWithLimit {
    type V = ItemV;

    open spec fn view(&self) -> ItemV {
        ItemV { token: self.info@, limit: self.limit }
    }
}

impl DeepView for AssetWithLimit {
    type V = ItemV;

    open spec fn deep_view(&self) -> ItemV {
        self@
    }
}

/// The spendable amount for one batch item: the held balance, capped by the
/// item's limit when the limit is positive and below the balance.
pub open spec fn spendable(balance: u128, limit: Option<u128>) -> u128 {
    match limit {
        Some(l) => if 0 < l < balance {
            l
        } else {
            balance
        },
        None => balance,
    }
}

} // verus!
