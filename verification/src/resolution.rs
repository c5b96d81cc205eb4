use crate::types::{AdminData, AssetKind, AuctionSettings, Bid, Transfer};
use vstd::prelude::*;

verus! {

/// The platform's commission on a sale of `amount`: `rate` percent of it,
/// rounded down, held between `min` and `max`, and never more than the sale
/// itself.
pub open spec fn commission(amount: int, rate: int, min: int, max: int) -> int {
    let share = amount * rate / 100;
    let bounded = if share < min {
        min
    } else if share > max {
        max
    } else {
        share
    };
    if bounded > amount {
        amount
    } else {
        bounded
    }
}

/// The commission that a sale to `winner` bears under these settings.
pub open spec fn commission_on(settings: &AuctionSettings, admin: &AdminData, winner: &Bid) -> int {
    commission(
        winner.amount as int,
        admin.commission_rate as int,
        settings.commission_min as int,
        settings.commission_max as int,
    )
}

/// The transfers that settle a sale to `winner`: the price less the
/// commission to the seller, the commission to the platform, and the
/// property to the winner.
pub open spec fn settlement(settings: &AuctionSettings, admin: &AdminData, winner: &Bid) -> Seq<
    Transfer,
> {
    let fee = commission_on(settings, admin, winner);
    seq![
        Transfer {
            asset: AssetKind::Funds,
            from: winner.buyer,
            to: settings.seller,
            amount: (winner.amount - fee) as i128,
        },
        Transfer {
            asset: AssetKind::Funds,
            from: winner.buyer,
            to: admin.admin,
            amount: fee as i128,
        },
        Transfer {
            asset: AssetKind::Property,
            from: settings.seller,
            to: winner.buyer,
            amount: 1,
        },
    ]
}

/// The transfers that follow from the outcome: those of the settlement where
/// there is a winner, none where there is no sale.
pub open spec fn transfers_for(
    settings: &AuctionSettings,
    admin: &AdminData,
    winner: Option<Bid>,
) -> Seq<Transfer> {
    match winner {
        Some(bid) => settlement(settings, admin, &bid),
        None => Seq::empty(),
    }
}

/// The commission lies between nothing and the whole sale, so that neither
/// party is asked to pay.
pub proof fn lemma_commission_bounds(amount: int, rate: int, min: int, max: int)
    requires
        0 <= amount,
        0 <= rate <= 100,
        0 <= min <= max,
    ensures
        0 <= commission(amount, rate, min, max) <= amount,
{
    assert(amount * rate / 100 >= 0) by (nonlinear_arith)
        requires
            0 <= amount,
            0 <= rate,
    ;
}

/// A settlement pays out what the winner pays in: the seller's share and the
/// platform's commission are both at least nothing and add up to the
/// winning amount, and one unit of the property goes to the winner.
pub proof fn lemma_settlement_adds_up(settings: &AuctionSettings, admin: &AdminData, winner: &Bid)
    requires
        settings.valid(),
        admin.valid(),
        0 <= winner.amount,
    ensures
        settlement(settings, admin, winner).len() == 3,
        settlement(settings, admin, winner)[0].amount + settlement(
            settings,
            admin,
            winner,
        )[1].amount == winner.amount,
        0 <= settlement(settings, admin, winner)[0].amount,
        0 <= settlement(settings, admin, winner)[1].amount,
        settlement(settings, admin, winner)[1].amount == commission_on(settings, admin, winner),
        settlement(settings, admin, winner)[2].amount == 1,
        settlement(settings, admin, winner)[2].to == winner.buyer,
{
    lemma_commission_bounds(
        winner.amount as int,
        admin.commission_rate as int,
        settings.commission_min as int,
        settings.commission_max as int,
    );
}

/// `rate` percent of `amount`, rounded down.
pub fn percentage(amount: i128, rate: i128) -> (share: i128)
    requires
        0 <= amount,
        0 <= rate <= 100,
    ensures
        share == amount * rate / 100,
        0 <= share <= amount,
{
    let whole: i128 = amount / 100;
    let rest: i128 = amount % 100;
    assert(0 <= whole * rate <= amount && 0 <= rest * rate <= 9900 && (amount * rate) / 100
        == whole * rate + (rest * rate) / 100) by (nonlinear_arith)
        requires
            0 <= amount,
            0 <= rate <= 100,
            whole == amount / 100,
            rest == amount % 100,
    ;
    assert((amount * rate) / 100 <= amount) by (nonlinear_arith)
        requires
            0 <= amount,
            0 <= rate <= 100,
    ;
    whole * rate + (rest * rate) / 100
}

pub fn compute_commission(amount: i128, rate: i128, min: i128, max: i128) -> (fee: i128)
    requires
        0 <= amount,
        0 <= rate <= 100,
        0 <= min <= max,
    ensures
        fee == commission(amount as int, rate as int, min as int, max as int),
        0 <= fee <= amount,
{
    let share: i128 = percentage(amount, rate);
    let bounded: i128 = if share < min {
        min
    } else if share > max {
        max
    } else {
        share
    };
    if bounded > amount {
        amount
    } else {
        bounded
    }
}

/// Works out the transfers that settle a sale to `winner`.
pub fn settle(settings: &AuctionSettings, admin: &AdminData, winner: &Bid) -> (transfers: Vec<
    Transfer,
>)
    requires
        settings.valid(),
        admin.valid(),
        0 <= winner.amount,
    ensures
        transfers@ == settlement(settings, admin, winner),
{
    let fee = compute_commission(
        winner.amount,
        admin.commission_rate,
        settings.commission_min,
        settings.commission_max,
    );
    let mut transfers: Vec<Transfer> = Vec::new();
    transfers.push(
        Transfer {
            asset: AssetKind::Funds,
            from: winner.buyer.duplicate(),
            to: settings.seller.duplicate(),
            amount: winner.amount - fee,
        },
    );
    transfers.push(
        Transfer {
            asset: AssetKind::Funds,
            from: winner.buyer.duplicate(),
            to: admin.admin.duplicate(),
            amount: fee,
        },
    );
    transfers.push(
        Transfer {
            asset: AssetKind::Property,
            from: settings.seller.duplicate(),
            to: winner.buyer.duplicate(),
            amount: 1,
        },
    );
    assert(transfers@ =~= settlement(settings, admin, winner));
    transfers
}

} // verus!
