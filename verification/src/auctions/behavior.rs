use crate::auctions::ascending::AscendingPriceAuction;
use crate::auctions::discount::DescendingPriceAuction;
use crate::commitment::{commitment_hash, commitment_of};
use crate::host::Transaction;
use crate::phase::{advance, advanced, initial, initial_phase};
use crate::resolution::{settle, settlement, transfers_for};
use crate::types::{
    AdminData, AuctionData, AuctionError, AuctionPhase, AuctionSettings, Bid, Principal,
    SealedBid, Transfer,
};
use crate::validator::{
    accept_sealed, first_match, plain_bid_valid, reveal_bid_with_digest, validate_plain,
    PriceRule,
};
use vstd::prelude::*;

verus! {

/// What an accepted bid leaves behind for the caller: the phase record to
/// store, and the transfers to carry out where the bid has closed the sale.
#[derive(Debug)]
pub struct BidReceipt {
    pub phase: Option<AuctionPhase>,
    pub transfers: Vec<Transfer>,
}

/// Well-formedness of a record together with its phase: a well-formed
/// record; `Sealed` only where the auction has a sealed phase; no commitment
/// outstanding once the auction has ended; and a falling-price auction that
/// has taken a bid has ended.
pub open spec fn state_wf(auction: &AuctionData, phase: Option<AuctionPhase>) -> bool {
    &&& auction.wf()
    &&& phase == Some(AuctionPhase::Sealed) ==> auction.settings.sealed()
    &&& phase == Some(AuctionPhase::Ended) ==> auction.sealed_bids@.len() == 0
    &&& auction.settings.discounted() && auction.bids@.len() > 0 ==> phase == Some(
        AuctionPhase::Ended,
    )
}

/// Checks a record and its phase, as they came from outside, against
/// [`state_wf`].
pub fn is_state_well_formed(auction: &AuctionData, phase: Option<AuctionPhase>) -> (r: bool)
    ensures
        r == state_wf(auction, phase),
{
    if !auction.is_well_formed() {
        return false;
    }
    match phase {
        Some(AuctionPhase::Sealed) => {
            auction.settings.is_sealed() && !(auction.settings.is_discounted()
                && auction.bids.len() > 0)
        },
        Some(AuctionPhase::Ended) => auction.sealed_bids.len() == 0,
        _ => !(auction.settings.is_discounted() && auction.bids.len() > 0),
    }
}

/// The digest that a bid reveals: that of its amount and salt, where it
/// comes with a salt.
pub open spec fn revealed_digest(amount: i128, salt: Option<[u8; 32]>) -> Option<Seq<u8>> {
    match salt {
        Some(s) => Some(commitment_of(amount, s@)),
        None => None,
    }
}

/// The place of the commitment that a bid consumes, if it reveals one.
pub open spec fn consumed(auction: &AuctionData, buyer: Seq<char>, digest: Option<Seq<u8>>)
    -> Option<int> {
    match digest {
        Some(d) => first_match(auction.sealed_bids@, buyer, d),
        None => None,
    }
}

/// Why a bid is refused, if it is. The checks come in this order: the
/// bidder's signature; the phase, after the clock has been looked at; the
/// revealed commitment, where the bid reveals one; the price rule.
pub open spec fn bid_refusal(
    auction: &AuctionData,
    phase: Option<AuctionPhase>,
    price: int,
    rule: PriceRule,
    buyer: Seq<char>,
    amount: i128,
    digest: Option<Seq<u8>>,
    tx: &Transaction,
) -> Option<AuctionError> {
    let current = advanced(phase, auction, tx.now);
    if !tx.authorizes(buyer) {
        Some(AuctionError::AuthorizationFailure)
    } else if current == Some(AuctionPhase::Ended) || current == Some(AuctionPhase::Sealed) {
        Some(AuctionError::StateConflict)
    } else if digest is Some && consumed(auction, buyer, digest) is None {
        Some(AuctionError::InvalidReveal)
    } else if !rule.admits(amount as int, price) {
        Some(AuctionError::InvalidBid)
    } else {
        None
    }
}

/// The record after an accepted bid: the bid stands last among the bids; the
/// commitment it revealed is gone, and where the bid closes the sale so are
/// all others; nothing else has changed.
pub open spec fn bid_effect(
    before: &AuctionData,
    after: &AuctionData,
    closes: bool,
    buyer: Principal,
    amount: i128,
    digest: Option<Seq<u8>>,
    now: u64,
) -> bool {
    &&& after.bids@ == before.bids@.push(Bid { buyer, amount, timestamp: now })
    &&& after.sealed_bids@ == if closes {
        Seq::<SealedBid>::empty()
    } else {
        match consumed(before, buyer@, digest) {
            Some(i) => before.sealed_bids@.remove(i),
            None => before.sealed_bids@,
        }
    }
    &&& after.settings == before.settings
    &&& after.start_time == before.start_time
    &&& after.id == before.id
}

/// What placing a bid comes to, under a variant with the given price, price
/// rule and way of closing. A refused bid changes nothing. An accepted one
/// is recorded; the phase is the one the clock gives, or `Ended` where the
/// bid closes the sale, and then the receipt carries the settlement.
pub open spec fn bid_outcome(
    price: int,
    rule: PriceRule,
    closes: bool,
    before: &AuctionData,
    after: &AuctionData,
    phase: Option<AuctionPhase>,
    admin: &AdminData,
    buyer: Principal,
    amount: i128,
    digest: Option<Seq<u8>>,
    tx: &Transaction,
    r: Result<BidReceipt, AuctionError>,
) -> bool {
    match bid_refusal(before, phase, price, rule, buyer@, amount, digest, tx) {
        Some(e) => r == Err::<BidReceipt, AuctionError>(e) && *after == *before,
        None => {
            &&& r is Ok
            &&& bid_effect(before, after, closes, buyer, amount, digest, tx.now)
            &&& r->Ok_0.phase == if closes {
                Some(AuctionPhase::Ended)
            } else {
                advanced(phase, before, tx.now)
            }
            &&& r->Ok_0.transfers@ == if closes {
                settlement(
                    &before.settings,
                    admin,
                    &Bid { buyer, amount, timestamp: tx.now },
                )
            } else {
                Seq::<Transfer>::empty()
            }
            &&& state_wf(after, r->Ok_0.phase)
        },
    }
}

/// Placing a bid is replay-safe: the same bid on the same record at the same
/// ledger time is refused for the same reason or accepted with the same
/// effect.
pub proof fn lemma_bid_is_replay_safe(
    price: int,
    rule: PriceRule,
    closes: bool,
    before: &AuctionData,
    phase: Option<AuctionPhase>,
    admin: &AdminData,
    buyer: Principal,
    amount: i128,
    digest: Option<Seq<u8>>,
    tx: &Transaction,
    once: &AuctionData,
    r1: Result<BidReceipt, AuctionError>,
    again: &AuctionData,
    r2: Result<BidReceipt, AuctionError>,
)
    requires
        bid_outcome(price, rule, closes, before, once, phase, admin, buyer, amount, digest, tx, r1),
        bid_outcome(price, rule, closes, before, again, phase, admin, buyer, amount, digest, tx, r2),
    ensures
        r1 is Ok <==> r2 is Ok,
        r1 is Err ==> r1 == r2 && *once == *again,
        r1 is Ok ==> r1->Ok_0.phase == r2->Ok_0.phase && r1->Ok_0.transfers@
            == r2->Ok_0.transfers@,
        once.bids@ == again.bids@,
        once.sealed_bids@ == again.sealed_bids@,
        once.settings == again.settings,
        once.start_time == again.start_time,
        once.id == again.id,
{
}

/// What placing a sealed bid comes to. It needs the bidder's signature and
/// an auction that is still `Sealed` once the clock has been looked at; the
/// commitment then stands last among the outstanding ones.
pub open spec fn sealed_bid_outcome(
    before: &AuctionData,
    after: &AuctionData,
    phase: Option<AuctionPhase>,
    buyer: Principal,
    commitment: [u8; 32],
    tx: &Transaction,
    r: Result<(), AuctionError>,
) -> bool {
    if !tx.authorizes(buyer@) {
        r == Err::<(), AuctionError>(AuctionError::AuthorizationFailure) && *after == *before
    } else if advanced(phase, before, tx.now) != Some(AuctionPhase::Sealed) {
        r == Err::<(), AuctionError>(AuctionError::StateConflict) && *after == *before
    } else {
        &&& r is Ok
        &&& after.sealed_bids@ == before.sealed_bids@.push(SealedBid { buyer, commitment })
        &&& after.bids@ == before.bids@
        &&& after.settings == before.settings
        &&& after.start_time == before.start_time
        &&& after.id == before.id
        &&& state_wf(after, phase)
    }
}

/// The bid at `winner`, if there is a winner.
pub open spec fn winning_bid(auction: &AuctionData, winner: Option<int>) -> Option<Bid> {
    match winner {
        Some(i) => Some(auction.bids@[i]),
        None => None,
    }
}

/// What resolving comes to, given the place of the winning bid. An auction
/// that has ended, or is still sealed once the clock has been looked at, is
/// not resolved. Otherwise the auction ends: the outstanding commitments are
/// forfeited, and the transfers are those of the settlement, or none where
/// nobody has won.
pub open spec fn resolve_outcome(
    winner: Option<int>,
    before: &AuctionData,
    after: &AuctionData,
    phase: Option<AuctionPhase>,
    admin: &AdminData,
    now: u64,
    r: Result<Vec<Transfer>, AuctionError>,
) -> bool {
    let current = advanced(phase, before, now);
    if current == Some(AuctionPhase::Ended) || current == Some(AuctionPhase::Sealed) {
        r == Err::<Vec<Transfer>, AuctionError>(AuctionError::StateConflict) && *after == *before
    } else {
        &&& r is Ok
        &&& r->Ok_0@ == transfers_for(&before.settings, admin, winning_bid(before, winner))
        &&& after.sealed_bids@ == Seq::<SealedBid>::empty()
        &&& after.bids@ == before.bids@
        &&& after.settings == before.settings
        &&& after.start_time == before.start_time
        &&& after.id == before.id
        &&& state_wf(after, Some(AuctionPhase::Ended))
    }
}

/// What starting comes to: the record must hold valid settings and no
/// history, and then begins in its initial phase.
pub open spec fn start_outcome(auction: &AuctionData) -> Result<
    Option<AuctionPhase>,
    AuctionError,
> {
    if auction.settings.valid() && auction.bids@.len() == 0 && auction.sealed_bids@.len() == 0 {
        Ok(initial(&auction.settings))
    } else {
        Err(AuctionError::ConfigurationInvalid)
    }
}

/// Whether a further bid of `amount` keeps the record well-formed.
pub open spec fn keeps_rising(auction: &AuctionData, amount: i128) -> bool {
    &&& auction.admissible_amount(amount)
    &&& auction.bids@.len() > 0 ==> auction.bids@.last().amount < amount
}

/// The behaviour that every bidding protocol has: a price, a rule by which
/// amounts are held against it, a way of closing, and the five operations
/// of an auction.
pub trait BaseAuction {
    /// Whether this protocol is the one that governs auctions with these
    /// settings.
    spec fn governs(&self, settings: &AuctionSettings) -> bool;

    /// The current effective price.
    spec fn price(&self, auction: &AuctionData, now: u64) -> int;

    /// The rule by which an amount is held against the price.
    spec fn rule(&self) -> PriceRule;

    /// Whether an accepted bid closes the sale at once.
    spec fn closes_on_bid(&self) -> bool;

    /// The place of the winning bid among the accepted ones.
    spec fn winner(&self, auction: &AuctionData) -> Option<int>;

    /// Works out the current effective price.
    fn calculate_price(&self, auction: &AuctionData, now: u64) -> (p: i128)
        requires
            auction.settings.valid(),
            self.governs(&auction.settings),
        ensures
            p == self.price(auction, now),
    ;

    /// Whether the auction begins with a sealed phase.
    fn is_sealed_bid_auction(&self, auction: &AuctionData) -> (r: bool)
        ensures
            r == auction.settings.sealed(),
    ;

    /// Checks a new record and gives the phase record it begins with.
    fn start(&self, auction: &AuctionData) -> (r: Result<Option<AuctionPhase>, AuctionError>)
        ensures
            r == start_outcome(auction),
            r is Ok ==> state_wf(auction, r->Ok_0),
    ;

    /// Takes in a commitment to a hidden amount.
    fn place_sealed_bid(
        &self,
        auction: &mut AuctionData,
        phase: Option<AuctionPhase>,
        buyer: &Principal,
        sealed_amount: &[u8; 32],
        tx: &Transaction,
    ) -> (r: Result<(), AuctionError>)
        requires
            state_wf(old(auction), phase),
        ensures
            sealed_bid_outcome(old(auction), final(auction), phase, *buyer, *sealed_amount, tx, r),
    ;

    /// Places a plain bid, or with a salt reveals a commitment as one.
    fn place_bid(
        &self,
        auction: &mut AuctionData,
        phase: Option<AuctionPhase>,
        admin: &AdminData,
        buyer: &Principal,
        amount: i128,
        salt: &Option<[u8; 32]>,
        tx: &Transaction,
    ) -> (r: Result<BidReceipt, AuctionError>)
        requires
            state_wf(old(auction), phase),
            admin.valid(),
            self.governs(&old(auction).settings),
        ensures
            bid_outcome(
                self.price(old(auction), tx.now),
                self.rule(),
                self.closes_on_bid(),
                old(auction),
                final(auction),
                phase,
                admin,
                *buyer,
                amount,
                revealed_digest(amount, *salt),
                tx,
                r,
            ),
    ;

    /// Ends the auction and says which transfers settle it.
    fn resolve(
        &self,
        auction: &mut AuctionData,
        phase: Option<AuctionPhase>,
        admin: &AdminData,
        now: u64,
    ) -> (r: Result<Vec<Transfer>, AuctionError>)
        requires
            state_wf(old(auction), phase),
            admin.valid(),
            self.governs(&old(auction).settings),
        ensures
            resolve_outcome(
                self.winner(old(auction)),
                old(auction),
                final(auction),
                phase,
                admin,
                now,
                r,
            ),
    ;
}

/// Starts an auction of either kind.
pub fn start_auction(auction: &AuctionData) -> (r: Result<Option<AuctionPhase>, AuctionError>)
    ensures
        r == start_outcome(auction),
        r is Ok ==> state_wf(auction, r->Ok_0),
{
    if auction.settings.is_valid() && auction.bids.len() == 0 && auction.sealed_bids.len() == 0 {
        Ok(initial_phase(&auction.settings))
    } else {
        Err(AuctionError::ConfigurationInvalid)
    }
}

/// Places a sealed bid in an auction of either kind.
pub fn place_sealed_bid_in(
    auction: &mut AuctionData,
    phase: Option<AuctionPhase>,
    buyer: &Principal,
    sealed_amount: &[u8; 32],
    tx: &Transaction,
) -> (r: Result<(), AuctionError>)
    requires
        state_wf(old(auction), phase),
    ensures
        sealed_bid_outcome(old(auction), final(auction), phase, *buyer, *sealed_amount, tx, r),
{
    if !tx.require_auth(buyer) {
        return Err(AuctionError::AuthorizationFailure);
    }
    let current = advance(phase, auction, tx.now);
    let entry = SealedBid { buyer: buyer.duplicate(), commitment: *sealed_amount };
    accept_sealed(entry, auction, current)
}

/// Places a bid under a protocol with the given price, rule and way of
/// closing, the digest of a revealed amount and salt being already computed.
pub fn place_bid_with_digest(
    price: i128,
    rule: PriceRule,
    closes: bool,
    auction: &mut AuctionData,
    phase: Option<AuctionPhase>,
    admin: &AdminData,
    buyer: &Principal,
    amount: i128,
    digest: &Option<[u8; 32]>,
    tx: &Transaction,
) -> (r: Result<BidReceipt, AuctionError>)
    requires
        state_wf(old(auction), phase),
        admin.valid(),
        old(auction).settings.discounted() ==> closes,
        plain_bid_valid(amount, price as int, rule, advanced(phase, old(auction), tx.now))
            ==> keeps_rising(old(auction), amount),
    ensures
        bid_outcome(
            price as int,
            rule,
            closes,
            old(auction),
            final(auction),
            phase,
            admin,
            *buyer,
            amount,
            match *digest {
                Some(d) => Some(d@),
                None => None,
            },
            tx,
            r,
        ),
{
    if !tx.require_auth(buyer) {
        return Err(AuctionError::AuthorizationFailure);
    }
    let current = advance(phase, auction, tx.now);
    match current {
        Some(AuctionPhase::Ended) => {
            return Err(AuctionError::StateConflict);
        },
        Some(AuctionPhase::Sealed) => {
            return Err(AuctionError::StateConflict);
        },
        _ => {},
    }
    let bid = match digest {
        Some(d) => {
            match reveal_bid_with_digest(buyer, amount, d, tx.now, price, rule, current, auction) {
                Ok(bid) => bid,
                Err(e) => {
                    return Err(e);
                },
            }
        },
        None => {
            let bid = Bid { buyer: buyer.duplicate(), amount, timestamp: tx.now };
            match validate_plain(&bid, price, rule, current) {
                Ok(_) => bid,
                Err(e) => {
                    return Err(e);
                },
            }
        },
    };
    if closes {
        let transfers = settle(&auction.settings, admin, &bid);
        auction.bids.push(bid);
        auction.sealed_bids.clear();
        Ok(BidReceipt { phase: Some(AuctionPhase::Ended), transfers })
    } else {
        auction.bids.push(bid);
        Ok(BidReceipt { phase: current, transfers: Vec::new() })
    }
}

/// Places a bid under a protocol with the given price, rule and way of
/// closing: hashes the amount with the salt, where there is one, and goes on
/// as [`place_bid_with_digest`] does.
pub fn place_bid_at(
    price: i128,
    rule: PriceRule,
    closes: bool,
    auction: &mut AuctionData,
    phase: Option<AuctionPhase>,
    admin: &AdminData,
    buyer: &Principal,
    amount: i128,
    salt: &Option<[u8; 32]>,
    tx: &Transaction,
) -> (r: Result<BidReceipt, AuctionError>)
    requires
        state_wf(old(auction), phase),
        admin.valid(),
        old(auction).settings.discounted() ==> closes,
        plain_bid_valid(amount, price as int, rule, advanced(phase, old(auction), tx.now))
            ==> keeps_rising(old(auction), amount),
    ensures
        bid_outcome(
            price as int,
            rule,
            closes,
            old(auction),
            final(auction),
            phase,
            admin,
            *buyer,
            amount,
            revealed_digest(amount, *salt),
            tx,
            r,
        ),
{
    let digest: Option<[u8; 32]> = match salt {
        Some(s) => Some(commitment_hash(amount, s)),
        None => None,
    };
    place_bid_with_digest(price, rule, closes, auction, phase, admin, buyer, amount, &digest, tx)
}

/// Resolves an auction whose winning bid stands at `winner`.
pub fn resolve_with(
    winner: Option<usize>,
    auction: &mut AuctionData,
    phase: Option<AuctionPhase>,
    admin: &AdminData,
    now: u64,
) -> (r: Result<Vec<Transfer>, AuctionError>)
    requires
        state_wf(old(auction), phase),
        admin.valid(),
        winner matches Some(i) ==> i < old(auction).bids@.len(),
    ensures
        resolve_outcome(
            match winner {
                Some(i) => Some(i as int),
                None => None,
            },
            old(auction),
            final(auction),
            phase,
            admin,
            now,
            r,
        ),
{
    let current = advance(phase, auction, now);
    match current {
        Some(AuctionPhase::Ended) => {
            return Err(AuctionError::StateConflict);
        },
        Some(AuctionPhase::Sealed) => {
            return Err(AuctionError::StateConflict);
        },
        _ => {},
    }
    let transfers = match winner {
        Some(i) => settle(&auction.settings, admin, &auction.bids[i]),
        None => Vec::new(),
    };
    auction.sealed_bids.clear();
    Ok(transfers)
}

/// Picks the bidding protocol that governs an auction and hands every
/// operation on to it.
#[derive(Clone, Copy, Debug)]
pub enum Dispatcher {
    Ascending(AscendingPriceAuction),
    Descending(DescendingPriceAuction),
}

impl Dispatcher {
    /// The protocol for these settings: the falling price where both a
    /// discount and its frequency are set, the rising price otherwise.
    pub open spec fn chosen(settings: &AuctionSettings) -> Dispatcher {
        if settings.discounted() {
            Dispatcher::Descending(DescendingPriceAuction)
        } else {
            Dispatcher::Ascending(AscendingPriceAuction)
        }
    }

    pub fn select(settings: &AuctionSettings) -> (d: Dispatcher)
        ensures
            d == Dispatcher::chosen(settings),
            d.governs(settings),
    {
        if settings.is_discounted() {
            Dispatcher::Descending(DescendingPriceAuction)
        } else {
            Dispatcher::Ascending(AscendingPriceAuction)
        }
    }

    pub open spec fn governs(&self, settings: &AuctionSettings) -> bool {
        match *self {
            Dispatcher::Ascending(v) => v.governs(settings),
            Dispatcher::Descending(v) => v.governs(settings),
        }
    }

    pub open spec fn price(&self, auction: &AuctionData, now: u64) -> int {
        match *self {
            Dispatcher::Ascending(v) => v.price(auction, now),
            Dispatcher::Descending(v) => v.price(auction, now),
        }
    }

    pub open spec fn rule(&self) -> PriceRule {
        match *self {
            Dispatcher::Ascending(v) => v.rule(),
            Dispatcher::Descending(v) => v.rule(),
        }
    }

    pub open spec fn closes_on_bid(&self) -> bool {
        match *self {
            Dispatcher::Ascending(v) => v.closes_on_bid(),
            Dispatcher::Descending(v) => v.closes_on_bid(),
        }
    }

    pub open spec fn winner(&self, auction: &AuctionData) -> Option<int> {
        match *self {
            Dispatcher::Ascending(v) => v.winner(auction),
            Dispatcher::Descending(v) => v.winner(auction),
        }
    }

    pub fn calculate_price(&self, auction: &AuctionData, now: u64) -> (p: i128)
        requires
            auction.settings.valid(),
            self.governs(&auction.settings),
        ensures
            p == self.price(auction, now),
    {
        match self {
            Dispatcher::Ascending(v) => v.calculate_price(auction, now),
            Dispatcher::Descending(v) => v.calculate_price(auction, now),
        }
    }

    pub fn is_sealed_bid_auction(&self, auction: &AuctionData) -> (r: bool)
        ensures
            r == auction.settings.sealed(),
    {
        match self {
            Dispatcher::Ascending(v) => v.is_sealed_bid_auction(auction),
            Dispatcher::Descending(v) => v.is_sealed_bid_auction(auction),
        }
    }

    pub fn start(&self, auction: &AuctionData) -> (r: Result<Option<AuctionPhase>, AuctionError>)
        ensures
            r == start_outcome(auction),
            r is Ok ==> state_wf(auction, r->Ok_0),
    {
        match self {
            Dispatcher::Ascending(v) => v.start(auction),
            Dispatcher::Descending(v) => v.start(auction),
        }
    }

    pub fn place_sealed_bid(
        &self,
        auction: &mut AuctionData,
        phase: Option<AuctionPhase>,
        buyer: &Principal,
        sealed_amount: &[u8; 32],
        tx: &Transaction,
    ) -> (r: Result<(), AuctionError>)
        requires
            state_wf(old(auction), phase),
        ensures
            sealed_bid_outcome(old(auction), final(auction), phase, *buyer, *sealed_amount, tx, r),
    {
        match self {
            Dispatcher::Ascending(v) => v.place_sealed_bid(auction, phase, buyer, sealed_amount, tx),
            Dispatcher::Descending(v) => v.place_sealed_bid(
                auction,
                phase,
                buyer,
                sealed_amount,
                tx,
            ),
        }
    }

    pub fn place_bid(
        &self,
        auction: &mut AuctionData,
        phase: Option<AuctionPhase>,
        admin: &AdminData,
        buyer: &Principal,
        amount: i128,
        salt: &Option<[u8; 32]>,
        tx: &Transaction,
    ) -> (r: Result<BidReceipt, AuctionError>)
        requires
            state_wf(old(auction), phase),
            admin.valid(),
            self.governs(&old(auction).settings),
        ensures
            bid_outcome(
                self.price(old(auction), tx.now),
                self.rule(),
                self.closes_on_bid(),
                old(auction),
                final(auction),
                phase,
                admin,
                *buyer,
                amount,
                revealed_digest(amount, *salt),
                tx,
                r,
            ),
    {
        match self {
            Dispatcher::Ascending(v) => v.place_bid(auction, phase, admin, buyer, amount, salt, tx),
            Dispatcher::Descending(v) => v.place_bid(
                auction,
                phase,
                admin,
                buyer,
                amount,
                salt,
                tx,
            ),
        }
    }

    pub fn resolve(
        &self,
        auction: &mut AuctionData,
        phase: Option<AuctionPhase>,
        admin: &AdminData,
        now: u64,
    ) -> (r: Result<Vec<Transfer>, AuctionError>)
        requires
            state_wf(old(auction), phase),
            admin.valid(),
            self.governs(&old(auction).settings),
        ensures
            resolve_outcome(
                self.winner(old(auction)),
                old(auction),
                final(auction),
                phase,
                admin,
                now,
                r,
            ),
    {
        match self {
            Dispatcher::Ascending(v) => v.resolve(auction, phase, admin, now),
            Dispatcher::Descending(v) => v.resolve(auction, phase, admin, now),
        }
    }
}

} // verus!
