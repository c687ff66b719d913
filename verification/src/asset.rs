//! The two kinds of asset a pool can hold, and amounts of them.

use vstd::prelude::*;

verus! {

/// What an asset is: a token kept by a contract, or a native coin.
#[derive(Clone, Debug, PartialEq, Eq)]
pub enum AssetInfo {
    /// A token, named by the address of its contract.
    Token { contract_addr: String },
    /// A native coin, named by its denomination.
    NativeToken { denom: String },
}

impl AssetInfo {
    /// Whether both are the same asset: of one kind and with one name.
    pub open spec fn equal_spec(&self, asset: &AssetInfo) -> bool {
        match (self, asset) {
            (
                AssetInfo::Token { contract_addr: a },
                AssetInfo::Token { contract_addr: b },
            ) => a@ == b@,
            (AssetInfo::NativeToken { denom: a }, AssetInfo::NativeToken { denom: b }) => a@ == b@,
            _ => false,
        }
    }

    /// Returns whether both are the same asset.
    pub fn equal(&self, asset: &AssetInfo) -> (r: bool)
        ensures
            r == self.equal_spec(asset),
    {
        match self {
            AssetInfo::Token { contract_addr: a } => match asset {
                AssetInfo::Token { contract_addr: b } => *a == *b,
                AssetInfo::NativeToken { .. } => false,
            },
            AssetInfo::NativeToken { denom: a } => match asset {
                AssetInfo::Token { .. } => false,
                AssetInfo::NativeToken { denom: b } => *a == *b,
            },
        }
    }

    /// Returns whether the asset is a native coin.
    pub fn is_native_token(&self) -> (r: bool)
        ensures
            r == (*self is NativeToken),
    {
        match self {
            AssetInfo::Token { .. } => false,
            AssetInfo::NativeToken { .. } => true,
        }
    }

    /// Returns a copy.
    pub fn duplicate(&self) -> (r: AssetInfo)
        ensures
            r == *self,
    {
        match self {
            AssetInfo::Token { contract_addr } => AssetInfo::Token {
                contract_addr: contract_addr.clone(),
            },
            AssetInfo::NativeToken { denom } => AssetInfo::NativeToken { denom: denom.clone() },
        }
    }
}

/// An amount of an asset.
#[derive(Clone, Debug, PartialEq, Eq)]
pub struct Asset {
    pub info: AssetInfo,
    pub amount: u128,
}

impl Asset {
    /// Returns whether the asset is a native coin.
    pub fn is_native_token(&self) -> (r: bool)
        ensures
            r == (self.info is NativeToken),
    {
        self.info.is_native_token()
    }

    /// Returns a copy.
    pub fn duplicate(&self) -> (r: Asset)
        ensures
            r == *self,
    {
        Asset { info: self.info.duplicate(), amount: self.amount }
    }
}

} // verus!
