use vstd::prelude::*;

verus! {

/// A party known to the ledger, named by the text of its address. Two
/// principals are the same party exactly when their address texts agree.
#[derive(Debug)]
pub struct Principal {
    pub address: String,
}

impl View for Principal {
    type V = Seq<char>;

    open spec fn view(&self) -> Seq<char> {
        self.address@
    }
}

impl Principal {
    pub fn new(address: String) -> (p: Principal)
        ensures
            p.address == address,
    {
        Principal { address }
    }

    /// Whether both name the same party.
    pub fn same(&self, other: &Principal) -> (r: bool)
        ensures
            r == (self@ == other@),
    {
        self.address == other.address
    }

    /// An independent copy of this principal.
    pub fn duplicate(&self) -> (p: Principal)
        ensures
            p == *self,
    {
        Principal { address: self.address.clone() }
    }
}

/// Why an operation was refused. Every refusal leaves all state as it was.
#[derive(Clone, Copy, Debug, PartialEq, Eq, Structural)]
pub enum AuctionError {
    /// The administrative record exists already.
    AlreadyInitialized,
    /// No auction or administrative record is stored under the key.
    NotFound,
    /// A principal whose signature the operation needs has not signed.
    AuthorizationFailure,
    /// The amount fails the price rule, or the auction has ended.
    InvalidBid,
    /// No outstanding commitment of the bidder matches the revealed values.
    InvalidReveal,
    /// The operation is not allowed in the auction's current phase.
    StateConflict,
    /// The settings break an ordering constraint.
    ConfigurationInvalid,
}

/// Lifecycle phase of one auction.
#[derive(Clone, Copy, Debug, PartialEq, Eq, Structural)]
pub enum AuctionPhase {
    Sealed,
    Running,
    Ended,
}

/// The region under which the phase of one auction is recorded.
#[derive(Clone, Copy, Debug, PartialEq, Eq, Structural)]
pub enum AuctionRegion {
    Dispatcher(u64),
}

/// The keys of the persistent store.
#[derive(Debug)]
pub enum DataKey {
    AuctionData(u64),
    AdminData,
    BrokerWhitelist(Principal),
}

/// An accepted plain bid.
#[derive(Debug)]
pub struct Bid {
    pub buyer: Principal,
    pub amount: i128,
    pub timestamp: u64,
}

/// An outstanding sealed commitment: a digest that binds an amount and a
/// secret salt, and shows neither.
#[derive(Debug)]
pub struct SealedBid {
    pub buyer: Principal,
    pub commitment: [u8; 32],
}

/// What the seller fixes when the auction is created.
#[derive(Debug)]
pub struct AuctionSettings {
    pub seller: Principal,
    /// The asset that stands for the property right on sale.
    pub property: Principal,
    pub starting_price: i128,
    /// Scheduled length of the auction, in ledger seconds.
    pub duration: u64,
    /// Length of the sealed phase; zero for an auction without one.
    pub sealed_phase_time: u64,
    /// Share of the starting price, in percent, taken off per interval.
    pub discount_percent: u32,
    /// Length of one discount interval, in ledger seconds.
    pub discount_frequency: u64,
    /// Least commission charged on a sale.
    pub commission_min: i128,
    /// Greatest commission charged on a sale.
    pub commission_max: i128,
}

/// The stored record of one auction.
#[derive(Debug)]
pub struct AuctionData {
    pub settings: AuctionSettings,
    pub start_time: u64,
    /// Accepted plain bids, oldest first.
    pub bids: Vec<Bid>,
    /// Outstanding commitments, oldest first.
    pub sealed_bids: Vec<SealedBid>,
    pub id: u64,
}

/// The platform's administrative record, of which there is at most one.
#[derive(Debug)]
pub struct AdminData {
    pub admin: Principal,
    pub anti_snipe_time: u64,
    /// Platform commission in percent, between 0 and 100.
    pub commission_rate: i128,
    pub extendable_auctions: bool,
}

/// Which of the two kinds of asset a transfer moves.
#[derive(Clone, Copy, Debug, PartialEq, Eq, Structural)]
pub enum AssetKind {
    /// The currency in which bids are made.
    Funds,
    /// The property right on sale.
    Property,
}

/// One call on the asset transfer service, to be carried out by the host.
#[derive(Debug)]
pub struct Transfer {
    pub asset: AssetKind,
    pub from: Principal,
    pub to: Principal,
    pub amount: i128,
}

impl AuctionPhase {
    /// `Ended` is the only phase out of which nothing leads.
    pub fn is_terminal(&self) -> (r: bool)
        ensures
            r == (*self == AuctionPhase::Ended),
    {
        match self {
            AuctionPhase::Ended => true,
            _ => false,
        }
    }
}

impl AuctionRegion {
    /// The region of the auction with this identifier.
    pub fn of(auction_id: u64) -> (r: AuctionRegion)
        ensures
            r == AuctionRegion::Dispatcher(auction_id),
    {
        AuctionRegion::Dispatcher(auction_id)
    }

    pub fn auction_id(&self) -> (id: u64)
        ensures
            *self == AuctionRegion::Dispatcher(id),
    {
        match self {
            AuctionRegion::Dispatcher(id) => *id,
        }
    }
}

impl AuctionSettings {
    /// The ordering constraints on settings: no price or commission bound is
    /// negative, and the least commission is not above the greatest.
    pub open spec fn valid(&self) -> bool {
        &&& 0 <= self.starting_price
        &&& 0 <= self.commission_min <= self.commission_max
    }

    pub fn is_valid(&self) -> (r: bool)
        ensures
            r == self.valid(),
    {
        0 <= self.starting_price && 0 <= self.commission_min && self.commission_min
            <= self.commission_max
    }

    /// Whether the price of this auction falls over time.
    pub open spec fn discounted(&self) -> bool {
        self.discount_percent > 0 && self.discount_frequency > 0
    }

    pub fn is_discounted(&self) -> (r: bool)
        ensures
            r == self.discounted(),
    {
        self.discount_percent > 0 && self.discount_frequency > 0
    }

    /// Whether the auction begins with a sealed phase.
    pub open spec fn sealed(&self) -> bool {
        self.sealed_phase_time > 0
    }

    pub fn is_sealed(&self) -> (r: bool)
        ensures
            r == self.sealed(),
    {
        self.sealed_phase_time > 0
    }

    pub fn duplicate(&self) -> (s: AuctionSettings)
        ensures
            s == *self,
    {
        AuctionSettings {
            seller: self.seller.duplicate(),
            property: self.property.duplicate(),
            starting_price: self.starting_price,
            duration: self.duration,
            sealed_phase_time: self.sealed_phase_time,
            discount_percent: self.discount_percent,
            discount_frequency: self.discount_frequency,
            commission_min: self.commission_min,
            commission_max: self.commission_max,
        }
    }
}

impl AdminData {
    /// The anti-snipe window is at most a minute and the commission rate a
    /// percentage.
    pub open spec fn valid(&self) -> bool {
        &&& self.anti_snipe_time <= 60
        &&& 0 <= self.commission_rate <= 100
    }

    pub fn is_valid(&self) -> (r: bool)
        ensures
            r == self.valid(),
    {
        self.anti_snipe_time <= 60 && 0 <= self.commission_rate && self.commission_rate <= 100
    }
}

impl AuctionData {
    pub fn new(
        settings: AuctionSettings,
        start_time: u64,
        bids: Vec<Bid>,
        sealed_bids: Vec<SealedBid>,
        id: u64,
    ) -> (a: AuctionData)
        ensures
            a.settings == settings,
            a.start_time == start_time,
            a.bids == bids,
            a.sealed_bids == sealed_bids,
            a.id == id,
    {
        AuctionData { settings, start_time, bids, sealed_bids, id }
    }

    /// No accepted amount is negative, the amounts rise strictly, and where
    /// the price does not fall over time each lies above the starting price.
    pub open spec fn bids_rising(&self) -> bool {
        &&& forall|i: int|
            0 <= i < self.bids@.len() ==> self.admissible_amount(#[trigger] self.bids@[i].amount)
        &&& forall|i: int, j: int|
            0 <= i < j < self.bids@.len() ==> #[trigger] self.bids@[i].amount
                < #[trigger] self.bids@[j].amount
    }

    /// What holds of every amount that was ever accepted.
    pub open spec fn admissible_amount(&self, amount: i128) -> bool {
        &&& 0 <= amount
        &&& !self.settings.discounted() ==> self.settings.starting_price < amount
    }

    /// Well-formedness of a stored record: valid settings and rising bids.
    pub open spec fn wf(&self) -> bool {
        &&& self.settings.valid()
        &&& self.bids_rising()
    }

    /// The highest accepted amount, or the starting price where there is no
    /// bid yet.
    pub open spec fn highest(&self) -> int {
        if self.bids@.len() == 0 {
            self.settings.starting_price as int
        } else {
            self.bids@.last().amount as int
        }
    }

    /// Checks a record that came from outside against [`Self::wf`].
    pub fn is_well_formed(&self) -> (r: bool)
        ensures
            r == self.wf(),
    {
        if !self.settings.is_valid() {
            return false;
        }
        let discounted = self.settings.is_discounted();
        let mut k: usize = 0;
        while k < self.bids.len()
            invariant
                k <= self.bids@.len(),
                discounted == self.settings.discounted(),
                forall|i: int|
                    0 <= i < k ==> self.admissible_amount(#[trigger] self.bids@[i].amount),
                forall|i: int, j: int|
                    0 <= i < j < k ==> #[trigger] self.bids@[i].amount
                        < #[trigger] self.bids@[j].amount,
            decreases self.bids@.len() - k,
        {
            let amount: i128 = self.bids[k].amount;
            if amount < 0 || (!discounted && amount <= self.settings.starting_price) {
                assert(!self.admissible_amount(self.bids@[k as int].amount));
                return false;
            }
            if k > 0 && amount <= self.bids[k - 1].amount {
                assert(!(self.bids@[k - 1].amount < self.bids@[k as int].amount));
                return false;
            }
            assert forall|i: int, j: int| 0 <= i < j < k + 1 implies #[trigger] self.bids@[i].amount
                < #[trigger] self.bids@[j].amount by {
                if j == k && i < k - 1 {
                    assert(self.bids@[i].amount < self.bids@[k - 1].amount);
                }
            }
            k = k + 1;
        }
        true
    }
}

} // verus!
