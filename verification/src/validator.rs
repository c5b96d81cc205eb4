use crate::commitment::{commitment_hash, commitment_of, digests_equal};
use crate::types::{AuctionData, AuctionError, AuctionPhase, Bid, Principal, SealedBid};
use vstd::prelude::*;

verus! {

/// How an amount is held against the current price.
#[derive(Clone, Copy, Debug, PartialEq, Eq, Structural)]
pub enum PriceRule {
    /// The amount must be above the price.
    Exceed,
    /// The amount must be at least the price.
    Meet,
}

impl PriceRule {
    pub open spec fn admits(&self, amount: int, price: int) -> bool {
        match *self {
            PriceRule::Exceed => amount > price,
            PriceRule::Meet => amount >= price,
        }
    }

    pub fn is_admitted(&self, amount: i128, price: i128) -> (r: bool)
        ensures
            r == self.admits(amount as int, price as int),
    {
        match self {
            PriceRule::Exceed => amount > price,
            PriceRule::Meet => amount >= price,
        }
    }
}

/// Whether a plain bid of `amount` is valid: the auction has not ended and
/// the amount passes the price rule.
pub open spec fn plain_bid_valid(
    amount: i128,
    price: int,
    rule: PriceRule,
    phase: Option<AuctionPhase>,
) -> bool {
    phase != Some(AuctionPhase::Ended) && rule.admits(amount as int, price)
}

/// Whether `entry` is the commitment of `buyer` to `digest`.
pub open spec fn commits(entry: SealedBid, buyer: Seq<char>, digest: Seq<u8>) -> bool {
    entry.buyer@ == buyer && entry.commitment@ == digest
}

/// The place of the first commitment of `buyer` to `digest` at or after
/// `from`, if there is one.
pub open spec fn first_match_from(
    sealed: Seq<SealedBid>,
    buyer: Seq<char>,
    digest: Seq<u8>,
    from: int,
) -> Option<int>
    decreases sealed.len() - from,
{
    if from < 0 || from >= sealed.len() {
        None
    } else if commits(sealed[from], buyer, digest) {
        Some(from)
    } else {
        first_match_from(sealed, buyer, digest, from + 1)
    }
}

/// The place of the oldest outstanding commitment of `buyer` to `digest`.
pub open spec fn first_match(sealed: Seq<SealedBid>, buyer: Seq<char>, digest: Seq<u8>) -> Option<
    int,
> {
    first_match_from(sealed, buyer, digest, 0)
}

/// What [`first_match_from`] finds is a commitment of the buyer to the
/// digest with none before it, and it finds nothing only where there is none.
pub proof fn lemma_first_match(sealed: Seq<SealedBid>, buyer: Seq<char>, digest: Seq<u8>, from: int)
    requires
        0 <= from,
    ensures
        match first_match_from(sealed, buyer, digest, from) {
            Some(i) => from <= i < sealed.len() && commits(sealed[i], buyer, digest) && forall|
                j: int,
            |
                from <= j < i ==> !commits(#[trigger] sealed[j], buyer, digest),
            None => forall|j: int|
                from <= j < sealed.len() ==> !commits(#[trigger] sealed[j], buyer, digest),
        },
    decreases sealed.len() - from,
{
    if from < sealed.len() && !commits(sealed[from], buyer, digest) {
        lemma_first_match(sealed, buyer, digest, from + 1);
    }
}

/// A commitment that has just been taken in is found again: revealing the
/// values it binds consumes a commitment of that bidder, and yields a plain
/// bid wherever a plain bid of that amount would be valid.
pub proof fn lemma_reveal_finds_commitment(
    sealed: Seq<SealedBid>,
    entry: SealedBid,
    amount: i128,
    price: int,
    rule: PriceRule,
    phase: Option<AuctionPhase>,
)
    ensures
        first_match(sealed.push(entry), entry.buyer@, entry.commitment@) is Some,
        reveal_outcome(
            sealed.push(entry),
            entry.buyer@,
            entry.commitment@,
            amount,
            price,
            rule,
            phase,
        ) != Err::<int, AuctionError>(AuctionError::InvalidReveal),
        plain_bid_valid(amount, price, rule, phase) ==> reveal_outcome(
            sealed.push(entry),
            entry.buyer@,
            entry.commitment@,
            amount,
            price,
            rule,
            phase,
        ) is Ok,
{
    let all = sealed.push(entry);
    lemma_first_match(all, entry.buyer@, entry.commitment@, 0);
    assert(commits(all[sealed.len() as int], entry.buyer@, entry.commitment@));
}

/// Revealed values whose digest none of the bidder's outstanding commitments
/// carries are refused with `InvalidReveal`, whatever the amount.
pub proof fn lemma_unmatched_reveal_fails(
    sealed: Seq<SealedBid>,
    buyer: Seq<char>,
    digest: Seq<u8>,
    amount: i128,
    price: int,
    rule: PriceRule,
    phase: Option<AuctionPhase>,
)
    requires
        forall|i: int| 0 <= i < sealed.len() ==> !commits(#[trigger] sealed[i], buyer, digest),
    ensures
        reveal_outcome(sealed, buyer, digest, amount, price, rule, phase) == Err::<
            int,
            AuctionError,
        >(AuctionError::InvalidReveal),
{
    lemma_first_match(sealed, buyer, digest, 0);
}

/// Accepts or refuses a plain bid: `InvalidBid` where the auction has ended
/// or the amount fails the price rule.
pub fn validate_plain(bid: &Bid, price: i128, rule: PriceRule, phase: Option<AuctionPhase>) -> (r:
    Result<(), AuctionError>)
    ensures
        r == if plain_bid_valid(bid.amount, price as int, rule, phase) {
            Ok::<(), AuctionError>(())
        } else {
            Err::<(), AuctionError>(AuctionError::InvalidBid)
        },
{
    match phase {
        Some(AuctionPhase::Ended) => Err(AuctionError::InvalidBid),
        _ => {
            if rule.is_admitted(bid.amount, price) {
                Ok(())
            } else {
                Err(AuctionError::InvalidBid)
            }
        },
    }
}

/// Takes in a sealed commitment. Only a `Sealed` auction takes one, and it
/// takes any: no amount is known yet.
pub fn accept_sealed(commitment: SealedBid, auction: &mut AuctionData, phase: Option<AuctionPhase>)
    -> (r: Result<(), AuctionError>)
    ensures
        phase == Some(AuctionPhase::Sealed) ==> r is Ok && final(auction).sealed_bids@ == old(
            auction,
        ).sealed_bids@.push(commitment) && *final(auction) == (AuctionData {
            sealed_bids: final(auction).sealed_bids,
            ..*old(auction)
        }),
        phase != Some(AuctionPhase::Sealed) ==> r == Err::<(), AuctionError>(
            AuctionError::StateConflict,
        ) && *final(auction) == *old(auction),
{
    match phase {
        Some(AuctionPhase::Sealed) => {
            auction.sealed_bids.push(commitment);
            Ok(())
        },
        _ => Err(AuctionError::StateConflict),
    }
}

/// Looks for the oldest outstanding commitment of `buyer` to `digest`.
pub fn find_commitment(sealed: &Vec<SealedBid>, buyer: &Principal, digest: &[u8; 32]) -> (r: Option<
    usize,
>)
    ensures
        first_match(sealed@, buyer@, digest@) == match r {
            Some(k) => Some(k as int),
            None => None::<int>,
        },
        r matches Some(k) ==> k < sealed@.len(),
{
    let mut k: usize = 0;
    while k < sealed.len()
        invariant
            k <= sealed@.len(),
            first_match(sealed@, buyer@, digest@) == first_match_from(
                sealed@,
                buyer@,
                digest@,
                k as int,
            ),
        decreases sealed@.len() - k,
    {
        if sealed[k].buyer.same(buyer) && digests_equal(&sealed[k].commitment, digest) {
            return Some(k);
        }
        k = k + 1;
    }
    None
}

/// What a reveal comes to, given the digest of the revealed values.
pub open spec fn reveal_outcome(
    sealed: Seq<SealedBid>,
    buyer: Seq<char>,
    digest: Seq<u8>,
    amount: i128,
    price: int,
    rule: PriceRule,
    phase: Option<AuctionPhase>,
) -> Result<int, AuctionError> {
    match first_match(sealed, buyer, digest) {
        None => Err(AuctionError::InvalidReveal),
        Some(i) => if plain_bid_valid(amount, price, rule, phase) {
            Ok(i)
        } else {
            Err(AuctionError::InvalidBid)
        },
    }
}

/// Turns a commitment into a plain bid, given the digest that was computed
/// from the revealed amount and salt. The oldest outstanding commitment of
/// the buyer to that digest is consumed; without one the reveal fails with
/// `InvalidReveal`. The plain bid is then validated like any other, and a
/// reveal that fails leaves the commitments as they were.
pub fn reveal_bid_with_digest(
    buyer: &Principal,
    amount: i128,
    digest: &[u8; 32],
    timestamp: u64,
    price: i128,
    rule: PriceRule,
    phase: Option<AuctionPhase>,
    auction: &mut AuctionData,
) -> (r: Result<Bid, AuctionError>)
    ensures
        match reveal_outcome(
            old(auction).sealed_bids@,
            buyer@,
            digest@,
            amount,
            price as int,
            rule,
            phase,
        ) {
            Ok(i) => r == Ok::<Bid, AuctionError>(Bid { buyer: *buyer, amount, timestamp })
                && final(auction).sealed_bids@ == old(auction).sealed_bids@.remove(i)
                && *final(auction) == (AuctionData {
                sealed_bids: final(auction).sealed_bids,
                ..*old(auction)
            }),
            Err(e) => r == Err::<Bid, AuctionError>(e) && *final(auction) == *old(auction),
        },
{
    let found = find_commitment(&auction.sealed_bids, buyer, digest);
    match found {
        None => Err(AuctionError::InvalidReveal),
        Some(k) => {
            let bid = Bid { buyer: buyer.duplicate(), amount, timestamp };
            match validate_plain(&bid, price, rule, phase) {
                Err(e) => Err(e),
                Ok(_) => {
                    let _ = auction.sealed_bids.remove(k);
                    Ok(bid)
                },
            }
        },
    }
}

/// Turns a commitment into a plain bid: hashes the revealed amount and salt
/// and goes on as [`reveal_bid_with_digest`] does with the digest.
pub fn reveal_bid(
    buyer: &Principal,
    amount: i128,
    salt: &[u8; 32],
    timestamp: u64,
    price: i128,
    rule: PriceRule,
    phase: Option<AuctionPhase>,
    auction: &mut AuctionData,
) -> (r: Result<Bid, AuctionError>)
    ensures
        match reveal_outcome(
            old(auction).sealed_bids@,
            buyer@,
            commitment_of(amount, salt@),
            amount,
            price as int,
            rule,
            phase,
        ) {
            Ok(i) => r == Ok::<Bid, AuctionError>(Bid { buyer: *buyer, amount, timestamp })
                && final(auction).sealed_bids@ == old(auction).sealed_bids@.remove(i)
                && *final(auction) == (AuctionData {
                sealed_bids: final(auction).sealed_bids,
                ..*old(auction)
            }),
            Err(e) => r == Err::<Bid, AuctionError>(e) && *final(auction) == *old(auction),
        },
{
    let digest = commitment_hash(amount, salt);
    reveal_bid_with_digest(buyer, amount, &digest, timestamp, price, rule, phase, auction)
}

} // verus!
