use crate::types::{AdminData, AuctionData, AuctionError, AuctionPhase, AuctionRegion, DataKey};
use std::collections::HashMap;
use vstd::prelude::*;

verus! {

broadcast use vstd::std_specs::hash::group_hash_axioms;

/// The persistent store as the engine sees it: at most one administrative
/// record, one record per auction under its identifier, and one phase
/// record per auction region.
pub struct Storage {
    admin: Option<AdminData>,
    auctions: HashMap<u64, AuctionData>,
    phases: HashMap<u64, AuctionPhase>,
}

impl Storage {
    /// The administrative record, if it has been written.
    pub closed spec fn admin(&self) -> Option<AdminData> {
        self.admin
    }

    /// The auction records by identifier.
    pub closed spec fn auctions(&self) -> Map<u64, AuctionData> {
        self.auctions@
    }

    /// The phase records by auction identifier.
    pub closed spec fn phases(&self) -> Map<u64, AuctionPhase> {
        self.phases@
    }

    /// The phase record of one auction, if there is one.
    pub open spec fn phase_of(&self, auction_id: u64) -> Option<AuctionPhase> {
        if self.phases().contains_key(auction_id) {
            Some(self.phases()[auction_id])
        } else {
            None
        }
    }

    /// Whether two stores hold the same records.
    pub open spec fn same_as(&self, other: &Storage) -> bool {
        &&& self.admin() == other.admin()
        &&& self.auctions() == other.auctions()
        &&& self.phases() == other.phases()
    }

    /// Whether anything is stored under `key`. The engine keeps no broker
    /// whitelist, so nothing is ever stored under such a key.
    pub open spec fn holds(&self, key: &DataKey) -> bool {
        match *key {
            DataKey::AdminData => self.admin() is Some,
            DataKey::AuctionData(id) => self.auctions().contains_key(id),
            DataKey::BrokerWhitelist(_) => false,
        }
    }

    /// An empty store.
    pub fn new() -> (s: Storage)
        ensures
            s.admin() is None,
            s.auctions() == Map::<u64, AuctionData>::empty(),
            s.phases() == Map::<u64, AuctionPhase>::empty(),
    {
        Storage { admin: None, auctions: HashMap::new(), phases: HashMap::new() }
    }

    pub fn has(&self, key: &DataKey) -> (r: bool)
        ensures
            r == self.holds(key),
    {
        match key {
            DataKey::AdminData => self.admin.is_some(),
            DataKey::AuctionData(id) => self.auctions.contains_key(id),
            DataKey::BrokerWhitelist(_) => false,
        }
    }

    /// Removes what is stored under `key`, if anything is.
    pub fn remove(&mut self, key: &DataKey)
        ensures
            final(self).admin() == if *key == DataKey::AdminData {
                None
            } else {
                old(self).admin()
            },
            final(self).auctions() == match *key {
                DataKey::AuctionData(id) => old(self).auctions().remove(id),
                _ => old(self).auctions(),
            },
            final(self).phases() == old(self).phases(),
    {
        match key {
            DataKey::AdminData => {
                self.admin = None;
            },
            DataKey::AuctionData(id) => {
                let _ = self.auctions.remove(id);
            },
            DataKey::BrokerWhitelist(_) => {},
        }
    }

    pub fn has_admin(&self) -> (r: bool)
        ensures
            r == (self.admin() is Some),
    {
        self.admin.is_some()
    }

    /// The administrative record; `NotFound` where none was written.
    pub fn get_admin(&self) -> (r: Result<&AdminData, AuctionError>)
        ensures
            match self.admin() {
                Some(a) => r == Ok::<&AdminData, AuctionError>(&a),
                None => r == Err::<&AdminData, AuctionError>(AuctionError::NotFound),
            },
    {
        match &self.admin {
            Some(a) => Ok(a),
            None => Err(AuctionError::NotFound),
        }
    }

    /// Writes the administrative record, over an earlier one if there is one.
    pub fn set_admin(&mut self, admin: AdminData)
        ensures
            final(self).admin() == Some(admin),
            final(self).auctions() == old(self).auctions(),
            final(self).phases() == old(self).phases(),
    {
        self.admin = Some(admin);
    }

    pub fn has_auction(&self, auction_id: u64) -> (r: bool)
        ensures
            r == self.auctions().contains_key(auction_id),
    {
        self.auctions.contains_key(&auction_id)
    }

    /// The record of an auction; `NotFound` where there is none.
    pub fn get_auction(&self, auction_id: u64) -> (r: Result<&AuctionData, AuctionError>)
        ensures
            if self.auctions().contains_key(auction_id) {
                r == Ok::<&AuctionData, AuctionError>(&self.auctions()[auction_id])
            } else {
                r == Err::<&AuctionData, AuctionError>(AuctionError::NotFound)
            },
    {
        match self.auctions.get(&auction_id) {
            Some(a) => Ok(a),
            None => Err(AuctionError::NotFound),
        }
    }

    /// Writes the record of an auction under its identifier, over an earlier
    /// one if there is one.
    pub fn set_auction(&mut self, auction: AuctionData)
        ensures
            final(self).auctions() == old(self).auctions().insert(auction.id, auction),
            final(self).admin() == old(self).admin(),
            final(self).phases() == old(self).phases(),
    {
        let _ = self.auctions.insert(auction.id, auction);
    }

    /// Takes the record of an auction out of the store; `NotFound` where
    /// there is none.
    pub fn take_auction(&mut self, auction_id: u64) -> (r: Result<AuctionData, AuctionError>)
        ensures
            if old(self).auctions().contains_key(auction_id) {
                r == Ok::<AuctionData, AuctionError>(old(self).auctions()[auction_id])
            } else {
                r == Err::<AuctionData, AuctionError>(AuctionError::NotFound)
            },
            final(self).auctions() == old(self).auctions().remove(auction_id),
            final(self).admin() == old(self).admin(),
            final(self).phases() == old(self).phases(),
    {
        match self.auctions.remove(&auction_id) {
            Some(a) => Ok(a),
            None => Err(AuctionError::NotFound),
        }
    }

    /// The phase recorded for a region, if any.
    pub fn get_state(&self, region: &AuctionRegion) -> (r: Option<AuctionPhase>)
        ensures
            r == self.phase_of(region->0),
    {
        let id = region.auction_id();
        match self.phases.get(&id) {
            Some(p) => Some(*p),
            None => None,
        }
    }

    /// Records the phase of a region, over an earlier record if there is one.
    pub fn set_state(&mut self, region: &AuctionRegion, phase: AuctionPhase)
        ensures
            final(self).phases() == old(self).phases().insert(region->0, phase),
            final(self).phase_of(region->0) == Some(phase),
            final(self).admin() == old(self).admin(),
            final(self).auctions() == old(self).auctions(),
    {
        let id = region.auction_id();
        let _ = self.phases.insert(id, phase);
    }

    /// Removes the phase record of a region, if there is one.
    pub fn remove_state(&mut self, region: &AuctionRegion)
        ensures
            final(self).phases() == old(self).phases().remove(region->0),
            final(self).phase_of(region->0) is None,
            final(self).admin() == old(self).admin(),
            final(self).auctions() == old(self).auctions(),
    {
        let id = region.auction_id();
        let _ = self.phases.remove(&id);
    }
}

} // verus!
