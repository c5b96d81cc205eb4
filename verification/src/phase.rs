use crate::types::{AuctionData, AuctionPhase, AuctionSettings};
use vstd::prelude::*;

verus! {

/// The phase that the record stands for: an auction without a record is
/// running.
pub open spec fn effective(stored: Option<AuctionPhase>) -> AuctionPhase {
    match stored {
        Some(p) => p,
        None => AuctionPhase::Running,
    }
}

/// How far along its life an auction is.
pub open spec fn rank(stored: Option<AuctionPhase>) -> int {
    match effective(stored) {
        AuctionPhase::Sealed => 0,
        AuctionPhase::Running => 1,
        AuctionPhase::Ended => 2,
    }
}

/// The record with which an auction begins: `Sealed` where it has a sealed
/// phase, none where it has not.
pub open spec fn initial(settings: &AuctionSettings) -> Option<AuctionPhase> {
    if settings.sealed() {
        Some(AuctionPhase::Sealed)
    } else {
        None
    }
}

/// Whether the sealed phase of an auction begun at `start_time` is over at
/// `now`.
pub open spec fn sealed_phase_expired(start_time: u64, sealed_phase_time: u64, now: u64) -> bool {
    start_time + sealed_phase_time <= now
}

/// The record as it stands once the clock has been looked at: a sealed phase
/// that is over gives way to `Running`, and nothing else changes.
pub open spec fn advanced(stored: Option<AuctionPhase>, auction: &AuctionData, now: u64) -> Option<
    AuctionPhase,
> {
    if stored == Some(AuctionPhase::Sealed) && sealed_phase_expired(
        auction.start_time,
        auction.settings.sealed_phase_time,
        now,
    ) {
        Some(AuctionPhase::Running)
    } else {
        stored
    }
}

pub fn initial_phase(settings: &AuctionSettings) -> (p: Option<AuctionPhase>)
    ensures
        p == initial(settings),
{
    if settings.is_sealed() {
        Some(AuctionPhase::Sealed)
    } else {
        None
    }
}

pub fn has_sealed_phase_expired(auction: &AuctionData, now: u64) -> (r: bool)
    ensures
        r == sealed_phase_expired(auction.start_time, auction.settings.sealed_phase_time, now),
{
    auction.start_time as u128 + auction.settings.sealed_phase_time as u128 <= now as u128
}

/// Applies the pending `Sealed` to `Running` transition, if there is one.
pub fn advance(stored: Option<AuctionPhase>, auction: &AuctionData, now: u64) -> (p: Option<
    AuctionPhase,
>)
    ensures
        p == advanced(stored, auction, now),
{
    match stored {
        Some(AuctionPhase::Sealed) => {
            if has_sealed_phase_expired(auction, now) {
                Some(AuctionPhase::Running)
            } else {
                stored
            }
        },
        _ => stored,
    }
}

pub fn is_ended(stored: Option<AuctionPhase>) -> (r: bool)
    ensures
        r == (stored == Some(AuctionPhase::Ended)),
{
    match stored {
        Some(AuctionPhase::Ended) => true,
        _ => false,
    }
}

pub fn is_sealed(stored: Option<AuctionPhase>) -> (r: bool)
    ensures
        r == (stored == Some(AuctionPhase::Sealed)),
{
    match stored {
        Some(AuctionPhase::Sealed) => true,
        _ => false,
    }
}

/// The phase in which an auction with this record is at `now`.
pub open spec fn phase_at(stored: Option<AuctionPhase>, auction: &AuctionData, now: u64)
    -> AuctionPhase {
    effective(advanced(stored, auction, now))
}

/// At every ledger time an auction is in one phase and no other. It is
/// sealed only while its record says so and the sealed phase has not run
/// out, and it has ended exactly when its record says so.
pub proof fn lemma_one_phase_at_a_time(stored: Option<AuctionPhase>, auction: &AuctionData, now: u64)
    ensures
        !(phase_at(stored, auction, now) == AuctionPhase::Sealed && phase_at(stored, auction, now)
            == AuctionPhase::Running),
        phase_at(stored, auction, now) == AuctionPhase::Sealed <==> stored == Some(
            AuctionPhase::Sealed,
        ) && !sealed_phase_expired(auction.start_time, auction.settings.sealed_phase_time, now),
        phase_at(stored, auction, now) == AuctionPhase::Ended <==> stored == Some(
            AuctionPhase::Ended,
        ),
{
}

/// Looking at the clock never moves an auction backwards, never ends it and
/// never brings an ended one back: the record stays as it is or goes from
/// `Sealed` to `Running`.
pub proof fn lemma_advance_is_forward(stored: Option<AuctionPhase>, auction: &AuctionData, now: u64)
    ensures
        rank(stored) <= rank(advanced(stored, auction, now)),
        (stored == Some(AuctionPhase::Ended)) == (advanced(stored, auction, now) == Some(
            AuctionPhase::Ended,
        )),
        advanced(stored, auction, now) == Some(AuctionPhase::Sealed) ==> stored == Some(
            AuctionPhase::Sealed,
        ),
        advanced(stored, auction, now) != stored ==> stored == Some(AuctionPhase::Sealed)
            && advanced(stored, auction, now) == Some(AuctionPhase::Running),
{
}

/// The transition is sampled from the clock alone: once the sealed phase is
/// seen to be over it is over at every later time, and looking twice changes
/// nothing more.
pub proof fn lemma_advance_is_stable(
    stored: Option<AuctionPhase>,
    auction: &AuctionData,
    earlier: u64,
    later: u64,
)
    requires
        earlier <= later,
    ensures
        advanced(advanced(stored, auction, earlier), auction, later) == advanced(
            stored,
            auction,
            later,
        ),
        advanced(stored, auction, earlier) == Some(AuctionPhase::Running) ==> advanced(
            stored,
            auction,
            later,
        ) == Some(AuctionPhase::Running),
{
}

} // verus!
