//! The circulating supply of an asset under every sequence of requests.

use vstd::prelude::*;
use crate::records::RWAAssetView;

verus! {

/// A request that moves the circulating supply of an asset.
pub enum SupplyOp {
    /// Mint units on this chain.
    Mint(u64),
    /// Send units to another chain.
    Send(u64),
    /// Receive units from another chain.
    Receive(u64),
}

impl RWAAssetView {
    /// Whether the asset has room for `op`: it is active, and the supply
    /// neither falls below zero nor rises over the whole supply.
    pub open spec fn admits(self, op: SupplyOp) -> bool {
        self.is_active && match op {
            SupplyOp::Mint(amount) => self.circulating_supply + amount <= self.total_supply,
            SupplyOp::Send(amount) => amount <= self.circulating_supply,
            SupplyOp::Receive(amount) => self.circulating_supply + amount <= self.total_supply,
        }
    }

    /// The asset after `op` has been requested: moved where the asset admits
    /// the op, as it was where the request is rejected.
    pub open spec fn after(self, op: SupplyOp) -> RWAAssetView {
        if !self.admits(op) {
            self
        } else {
            match op {
                SupplyOp::Mint(amount) => self.minted(amount),
                SupplyOp::Send(amount) => self.sent(amount),
                SupplyOp::Receive(amount) => self.received(amount),
            }
        }
    }

    /// The asset after the requests of `ops`, one after the other.
    pub open spec fn after_all(self, ops: Seq<SupplyOp>) -> RWAAssetView
        decreases ops.len(),
    {
        if ops.len() == 0 {
            self
        } else {
            self.after_all(ops.drop_last()).after(ops.last())
        }
    }
}

/// One request keeps the circulating supply between zero and the whole
/// supply, and leaves the whole supply as it is.
pub proof fn lemma_supply_step_within_bounds(asset: RWAAssetView, op: SupplyOp)
    requires
        asset.wf(),
    ensures
        asset.after(op).wf(),
        0 <= asset.after(op).circulating_supply <= asset.after(op).total_supply,
        asset.after(op).total_supply == asset.total_supply,
{
}

/// Whatever is requested of an asset, in whatever order, its circulating
/// supply stays between zero and its whole supply, and its whole supply stays
/// what it was when the asset was registered.
pub proof fn lemma_supply_stays_within_bounds(asset: RWAAssetView, ops: Seq<SupplyOp>)
    requires
        asset.wf(),
    ensures
        asset.after_all(ops).wf(),
        0 <= asset.after_all(ops).circulating_supply <= asset.after_all(ops).total_supply,
        asset.after_all(ops).total_supply == asset.total_supply,
    decreases ops.len(),
{
    if ops.len() > 0 {
        lemma_supply_stays_within_bounds(asset, ops.drop_last());
        lemma_supply_step_within_bounds(asset.after_all(ops.drop_last()), ops.last());
    }
}

} // verus!
