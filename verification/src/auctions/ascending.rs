use crate::auctions::behavior::{
    bid_outcome, bid_refusal, consumed, place_bid_at, place_sealed_bid_in, resolve_with,
    start_auction, BaseAuction, BidReceipt,
};
use crate::host::Transaction;
use crate::phase::advanced;
use crate::types::{
    AdminData, AuctionData, AuctionError, AuctionPhase, AuctionSettings, Principal, Transfer,
};
use crate::validator::PriceRule;
use vstd::prelude::*;

verus! {

/// Open bidding at a rising price: each bid must exceed the highest so far,
/// and the highest bidder wins when the auction is resolved.
#[derive(Clone, Copy, Debug)]
pub struct AscendingPriceAuction;

impl BaseAuction for AscendingPriceAuction {
    open spec fn governs(&self, settings: &AuctionSettings) -> bool {
        !settings.discounted()
    }

    /// The highest accepted bid, or the starting price where there is none.
    open spec fn price(&self, auction: &AuctionData, now: u64) -> int {
        auction.highest()
    }

    open spec fn rule(&self) -> PriceRule {
        PriceRule::Exceed
    }

    open spec fn closes_on_bid(&self) -> bool {
        false
    }

    /// The latest bid, which is the highest.
    open spec fn winner(&self, auction: &AuctionData) -> Option<int> {
        if auction.bids@.len() == 0 {
            None
        } else {
            Some(auction.bids@.len() - 1)
        }
    }

    fn calculate_price(&self, auction: &AuctionData, now: u64) -> (p: i128) {
        let n = auction.bids.len();
        if n == 0 {
            auction.settings.starting_price
        } else {
            auction.bids[n - 1].amount
        }
    }

    fn is_sealed_bid_auction(&self, auction: &AuctionData) -> (r: bool) {
        auction.settings.is_sealed()
    }

    fn start(&self, auction: &AuctionData) -> (r: Result<Option<AuctionPhase>, AuctionError>) {
        start_auction(auction)
    }

    fn place_sealed_bid(
        &self,
        auction: &mut AuctionData,
        phase: Option<AuctionPhase>,
        buyer: &Principal,
        sealed_amount: &[u8; 32],
        tx: &Transaction,
    ) -> (r: Result<(), AuctionError>) {
        place_sealed_bid_in(auction, phase, buyer, sealed_amount, tx)
    }

    fn place_bid(
        &self,
        auction: &mut AuctionData,
        phase: Option<AuctionPhase>,
        admin: &AdminData,
        buyer: &Principal,
        amount: i128,
        salt: &Option<[u8; 32]>,
        tx: &Transaction,
    ) -> (r: Result<BidReceipt, AuctionError>) {
        let price = self.calculate_price(auction, tx.now);
        place_bid_at(price, PriceRule::Exceed, false, auction, phase, admin, buyer, amount, salt, tx)
    }

    fn resolve(
        &self,
        auction: &mut AuctionData,
        phase: Option<AuctionPhase>,
        admin: &AdminData,
        now: u64,
    ) -> (r: Result<Vec<Transfer>, AuctionError>) {
        let n = auction.bids.len();
        let winner: Option<usize> = if n == 0 {
            None
        } else {
            Some(n - 1)
        };
        resolve_with(winner, auction, phase, admin, now)
    }
}

/// The highest bid as it stood when the first `count` bids of the record
/// had been accepted.
pub open spec fn highest_after(auction: &AuctionData, count: int) -> int {
    if count <= 0 {
        auction.settings.starting_price as int
    } else {
        auction.bids@[count - 1].amount as int
    }
}

/// Over the whole history of a rising-price auction the highest bid never
/// falls: after more accepted bids it is at least what it was after fewer.
pub proof fn lemma_highest_bid_never_falls(auction: &AuctionData, fewer: int, more: int)
    requires
        auction.wf(),
        !auction.settings.discounted(),
        0 <= fewer <= more <= auction.bids@.len(),
    ensures
        highest_after(auction, fewer) <= highest_after(auction, more),
        highest_after(auction, auction.bids@.len() as int) == auction.highest(),
{
    if 0 < fewer < more {
        assert(auction.bids@[fewer - 1].amount < auction.bids@[more - 1].amount);
    } else if 0 < more {
        assert(auction.admissible_amount(auction.bids@[more - 1].amount));
    }
}

/// The winner of a rising-price auction is the highest bidder: no accepted
/// bid lies above the winning one.
pub proof fn lemma_winner_is_highest_bidder(auction: &AuctionData, other: int)
    requires
        auction.wf(),
        0 <= other < auction.bids@.len(),
    ensures
        AscendingPriceAuction.winner(auction) is Some,
        auction.bids@[other].amount <= auction.bids@[AscendingPriceAuction.winner(
            auction,
        )->0].amount,
        auction.bids@[AscendingPriceAuction.winner(auction)->0].amount == auction.highest(),
{
    let last = auction.bids@.len() - 1;
    if other < last {
        assert(auction.bids@[other].amount < auction.bids@[last].amount);
    }
}

/// An accepted bid becomes the highest bid and lies above the one before.
pub proof fn lemma_accepted_bid_is_highest(
    before: &AuctionData,
    after: &AuctionData,
    phase: Option<AuctionPhase>,
    admin: &AdminData,
    buyer: Principal,
    amount: i128,
    digest: Option<Seq<u8>>,
    tx: &Transaction,
    r: Result<BidReceipt, AuctionError>,
)
    requires
        bid_outcome(
            AscendingPriceAuction.price(before, tx.now),
            AscendingPriceAuction.rule(),
            AscendingPriceAuction.closes_on_bid(),
            before,
            after,
            phase,
            admin,
            buyer,
            amount,
            digest,
            tx,
            r,
        ),
    ensures
        before.highest() <= after.highest(),
        r is Ok ==> after.highest() == amount && before.highest() < amount,
{
    if r is Ok {
        assert(after.bids@.last().amount == amount);
    }
}

/// A bid at or below the highest bid is always refused, and with
/// `InvalidBid` wherever no earlier check refuses it: the bidder has signed,
/// the auction is neither sealed nor ended, and a commitment that the bid
/// reveals is there.
pub proof fn lemma_low_bid_is_refused(
    auction: &AuctionData,
    phase: Option<AuctionPhase>,
    buyer: Seq<char>,
    amount: i128,
    digest: Option<Seq<u8>>,
    tx: &Transaction,
)
    requires
        amount <= auction.highest(),
    ensures
        bid_refusal(
            auction,
            phase,
            AscendingPriceAuction.price(auction, tx.now),
            AscendingPriceAuction.rule(),
            buyer,
            amount,
            digest,
            tx,
        ) is Some,
        tx.authorizes(buyer) && advanced(phase, auction, tx.now) != Some(AuctionPhase::Ended)
            && advanced(phase, auction, tx.now) != Some(AuctionPhase::Sealed) && (digest is Some
            ==> consumed(auction, buyer, digest) is Some) ==> bid_refusal(
            auction,
            phase,
            AscendingPriceAuction.price(auction, tx.now),
            AscendingPriceAuction.rule(),
            buyer,
            amount,
            digest,
            tx,
        ) == Some(AuctionError::InvalidBid),
{
}

} // verus!
