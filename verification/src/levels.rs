//! The classes that assets and subjects fall into.

use vstd::prelude::*;

verus! {

/// The class of off-chain asset that a registered record stands for.
#[derive(Clone, Copy, Debug, PartialEq, Eq, Structural)]
pub enum AssetType {
    RealEstate,
    CarbonCredits,
    PreciousMetals,
    Commodities,
    Artwork,
    Collectibles,
    Other,
}

/// How thoroughly a subject has been identified, from least to most.
#[derive(Clone, Copy, Debug, PartialEq, Eq, Structural)]
pub enum KYCLevel {
    Unverified,
    Basic,
    Enhanced,
    Institutional,
}

/// The investor class of a passport holder.
#[derive(Clone, Copy, Debug, PartialEq, Eq, Structural)]
pub enum InvestorTier {
    Unclassified,
    Retail,
    Accredited,
    Institutional,
    Qualified,
}

impl KYCLevel {
    /// Position of the level in the order of its declaration; the byte that
    /// stands for it in encoded payloads.
    pub open spec fn rank(self) -> u8 {
        match self {
            KYCLevel::Unverified => 0,
            KYCLevel::Basic => 1,
            KYCLevel::Enhanced => 2,
            KYCLevel::Institutional => 3,
        }
    }

    pub fn index(self) -> (r: u8)
        ensures
            r == self.rank(),
    {
        match self {
            KYCLevel::Unverified => 0,
            KYCLevel::Basic => 1,
            KYCLevel::Enhanced => 2,
            KYCLevel::Institutional => 3,
        }
    }
}

} // verus!
