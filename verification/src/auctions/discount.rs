use crate::auctions::behavior::{
    bid_outcome, place_bid_at, place_sealed_bid_in, resolve_with, start_auction, BaseAuction,
    BidReceipt,
};
use crate::host::Transaction;
use crate::phase::advanced;
use crate::resolution::{percentage, settlement};
use crate::types::{
    AdminData, AuctionData, AuctionError, AuctionPhase, AuctionSettings, Bid, Principal,
    Transfer,
};
use crate::validator::PriceRule;
use vstd::prelude::*;

verus! {

/// The number of whole discount intervals between `start_time` and `now`.
pub open spec fn elapsed_intervals(start_time: int, frequency: int, now: int) -> int {
    if now <= start_time || frequency <= 0 {
        0
    } else {
        (now - start_time) / frequency
    }
}

/// The price after `intervals` discounts of `percent` percent of the
/// starting price each, and never less than nothing.
pub open spec fn discounted_price(starting_price: int, percent: int, intervals: int) -> int {
    let reduced = starting_price - (starting_price * percent / 100) * intervals;
    if reduced < 0 {
        0
    } else {
        reduced
    }
}

/// The asking price of a falling-price auction at `now`.
pub open spec fn asking_price(auction: &AuctionData, now: u64) -> int {
    discounted_price(
        auction.settings.starting_price as int,
        auction.settings.discount_percent as int,
        elapsed_intervals(
            auction.start_time as int,
            auction.settings.discount_frequency as int,
            now as int,
        ),
    )
}

/// The asking price lies between nothing and the starting price.
pub proof fn lemma_discounted_price_bounds(starting_price: int, percent: int, intervals: int)
    requires
        0 <= starting_price,
        0 <= percent,
        0 <= intervals,
    ensures
        0 <= discounted_price(starting_price, percent, intervals) <= starting_price,
{
    assert((starting_price * percent / 100) * intervals >= 0) by (nonlinear_arith)
        requires
            0 <= starting_price,
            0 <= percent,
            0 <= intervals,
    ;
}

/// More intervals never give a higher price.
pub proof fn lemma_discounted_price_falls(
    starting_price: int,
    percent: int,
    fewer: int,
    more: int,
)
    requires
        0 <= starting_price,
        0 <= percent,
        0 <= fewer <= more,
    ensures
        discounted_price(starting_price, percent, more) <= discounted_price(
            starting_price,
            percent,
            fewer,
        ),
{
    assert((starting_price * percent / 100) * fewer <= (starting_price * percent / 100) * more)
        by (nonlinear_arith)
        requires
            0 <= starting_price,
            0 <= percent,
            0 <= fewer <= more,
    ;
}

/// Later times never give fewer elapsed intervals.
pub proof fn lemma_elapsed_intervals_grow(start_time: int, frequency: int, earlier: int, later: int)
    requires
        earlier <= later,
    ensures
        0 <= elapsed_intervals(start_time, frequency, earlier) <= elapsed_intervals(
            start_time,
            frequency,
            later,
        ),
{
    if frequency > 0 && earlier > start_time {
        assert(0 <= (earlier - start_time) / frequency <= (later - start_time) / frequency)
            by (nonlinear_arith)
            requires
                0 < earlier - start_time <= later - start_time,
                frequency > 0,
        ;
    } else if frequency > 0 && later > start_time {
        assert(0 <= (later - start_time) / frequency) by (nonlinear_arith)
            requires
                0 < later - start_time,
                frequency > 0,
        ;
    }
}

/// The asking price never rises: at a later time it is at most what it was
/// at an earlier one, and it never leaves the range from nothing to the
/// starting price.
pub proof fn lemma_asking_price_never_rises(auction: &AuctionData, earlier: u64, later: u64)
    requires
        auction.settings.valid(),
        earlier <= later,
    ensures
        asking_price(auction, later) <= asking_price(auction, earlier),
        0 <= asking_price(auction, later),
        asking_price(auction, earlier) <= auction.settings.starting_price,
{
    let start_time = auction.start_time as int;
    let frequency = auction.settings.discount_frequency as int;
    let price = auction.settings.starting_price as int;
    let percent = auction.settings.discount_percent as int;
    lemma_elapsed_intervals_grow(start_time, frequency, earlier as int, later as int);
    let fewer = elapsed_intervals(start_time, frequency, earlier as int);
    let more = elapsed_intervals(start_time, frequency, later as int);
    lemma_discounted_price_falls(price, percent, fewer, more);
    lemma_discounted_price_bounds(price, percent, fewer);
    lemma_discounted_price_bounds(price, percent, more);
}

/// The first bid that meets the asking price wins at once: where the bidder
/// has signed and the auction is neither sealed nor ended, a plain bid at or
/// above the asking price is accepted, the auction has ended with it, and
/// the receipt carries the settlement of the sale to that bidder.
pub proof fn lemma_meeting_bid_closes(
    before: &AuctionData,
    after: &AuctionData,
    phase: Option<AuctionPhase>,
    admin: &AdminData,
    buyer: Principal,
    amount: i128,
    tx: &Transaction,
    r: Result<BidReceipt, AuctionError>,
)
    requires
        bid_outcome(
            DescendingPriceAuction.price(before, tx.now),
            DescendingPriceAuction.rule(),
            DescendingPriceAuction.closes_on_bid(),
            before,
            after,
            phase,
            admin,
            buyer,
            amount,
            None,
            tx,
            r,
        ),
        tx.authorizes(buyer@),
        advanced(phase, before, tx.now) != Some(AuctionPhase::Ended),
        advanced(phase, before, tx.now) != Some(AuctionPhase::Sealed),
        amount >= asking_price(before, tx.now),
    ensures
        r is Ok,
        r->Ok_0.phase == Some(AuctionPhase::Ended),
        r->Ok_0.transfers@ == settlement(
            &before.settings,
            admin,
            &Bid { buyer, amount, timestamp: tx.now },
        ),
        after.bids@.last() == (Bid { buyer, amount, timestamp: tx.now }),
{
}

/// Bidding against a price that falls on a schedule: the first bid at or
/// above the asking price wins at once and closes the sale.
#[derive(Clone, Copy, Debug)]
pub struct DescendingPriceAuction;

impl BaseAuction for DescendingPriceAuction {
    open spec fn governs(&self, settings: &AuctionSettings) -> bool {
        settings.discounted()
    }

    open spec fn price(&self, auction: &AuctionData, now: u64) -> int {
        asking_price(auction, now)
    }

    open spec fn rule(&self) -> PriceRule {
        PriceRule::Meet
    }

    open spec fn closes_on_bid(&self) -> bool {
        true
    }

    /// The first bid, which closed the sale.
    open spec fn winner(&self, auction: &AuctionData) -> Option<int> {
        if auction.bids@.len() == 0 {
            None
        } else {
            Some(0)
        }
    }

    fn calculate_price(&self, auction: &AuctionData, now: u64) -> (p: i128) {
        let starting_price: i128 = auction.settings.starting_price;
        let intervals: u64 = if now <= auction.start_time {
            0
        } else {
            (now - auction.start_time) / auction.settings.discount_frequency
        };
        let ghost percent = auction.settings.discount_percent as int;
        let ghost step = starting_price * percent / 100;
        if intervals == 0 {
            assert(step * 0 == 0);
            return starting_price;
        }
        if auction.settings.discount_percent >= 100 {
            assert(starting_price - step * intervals <= 0) by (nonlinear_arith)
                requires
                    0 <= starting_price,
                    percent >= 100,
                    step == starting_price * percent / 100,
                    intervals >= 1,
            ;
            return 0;
        }
        let cut: i128 = percentage(starting_price, auction.settings.discount_percent as i128);
        if cut == 0 {
            assert(step * intervals == 0) by (nonlinear_arith)
                requires
                    step == 0,
            ;
            return starting_price;
        }
        let most: i128 = starting_price / cut;
        let times: i128 = intervals as i128;
        if times > most {
            assert(starting_price - cut * times < 0) by (nonlinear_arith)
                requires
                    0 < cut,
                    0 <= starting_price,
                    most == starting_price / cut,
                    times > most,
            ;
            0
        } else {
            assert(0 <= cut * times <= starting_price) by (nonlinear_arith)
                requires
                    0 < cut,
                    0 <= starting_price,
                    most == starting_price / cut,
                    0 <= times <= most,
            ;
            starting_price - cut * times
        }
    }

    fn is_sealed_bid_auction(&self, auction: &AuctionData) -> (r: bool) {
        auction.settings.is_sealed()
    }

    fn start(&self, auction: &AuctionData) -> (r: Result<Option<AuctionPhase>, AuctionError>) {
        start_auction(auction)
    }

    fn place_sealed_bid(
        &self,
        auction: &mut AuctionData,
        phase: Option<AuctionPhase>,
        buyer: &Principal,
        sealed_amount: &[u8; 32],
        tx: &Transaction,
    ) -> (r: Result<(), AuctionError>) {
        place_sealed_bid_in(auction, phase, buyer, sealed_amount, tx)
    }

    fn place_bid(
        &self,
        auction: &mut AuctionData,
        phase: Option<AuctionPhase>,
        admin: &AdminData,
        buyer: &Principal,
        amount: i128,
        salt: &Option<[u8; 32]>,
        tx: &Transaction,
    ) -> (r: Result<BidReceipt, AuctionError>) {
        let price = self.calculate_price(auction, tx.now);
        place_bid_at(price, PriceRule::Meet, true, auction, phase, admin, buyer, amount, salt, tx)
    }

    fn resolve(
        &self,
        auction: &mut AuctionData,
        phase: Option<AuctionPhase>,
        admin: &AdminData,
        now: u64,
    ) -> (r: Result<Vec<Transfer>, AuctionError>) {
        let winner: Option<usize> = if auction.bids.len() == 0 {
            None
        } else {
            Some(0)
        };
        resolve_with(winner, auction, phase, admin, now)
    }
}

} // verus!
