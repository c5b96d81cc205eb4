use auction_engine::resolution::{compute_commission, percentage, settle};
use auction_engine::types::{AdminData, AssetKind, AuctionSettings, Bid, Principal};

fn named(name: &str) -> Principal {
    Principal::new(String::from(name))
}

fn bounds(commission_min: i128, commission_max: i128) -> AuctionSettings {
    AuctionSettings {
        seller: named("seller"),
        property: named("deed"),
        starting_price: 10,
        duration: 100,
        sealed_phase_time: 0,
        discount_percent: 0,
        discount_frequency: 0,
        commission_min,
        commission_max,
    }
}

fn rate(commission_rate: i128) -> AdminData {
    AdminData { admin: named("admin"), anti_snipe_time: 0, commission_rate, extendable_auctions: false }
}

#[test]
fn percentage_rounds_down() {
    assert_eq!(percentage(20, 10), 2);
    assert_eq!(percentage(199, 1), 1);
    assert_eq!(percentage(99, 1), 0);
    assert_eq!(percentage(1234, 37), 456);
    assert_eq!(percentage(0, 50), 0);
    assert_eq!(percentage(77, 0), 0);
    assert_eq!(percentage(77, 100), 77);
}

#[test]
fn percentage_of_the_largest_amount() {
    assert_eq!(percentage(i128::MAX, 100), i128::MAX);
    assert_eq!(percentage(i128::MAX, 50), i128::MAX / 2);
    assert_eq!(percentage(i128::MAX, 1), i128::MAX / 100);
}

#[test]
fn commission_is_held_between_its_bounds() {
    assert_eq!(compute_commission(20, 10, 0, 1000), 2);
    assert_eq!(compute_commission(1000, 10, 0, 50), 50);
    assert_eq!(compute_commission(1000, 10, 150, 500), 150);
    assert_eq!(compute_commission(1000, 10, 100, 100), 100);
    assert_eq!(compute_commission(1000, 0, 0, 100), 0);
}

#[test]
fn commission_never_exceeds_the_sale() {
    assert_eq!(compute_commission(20, 10, 50, 1000), 20);
    assert_eq!(compute_commission(0, 10, 50, 1000), 0);
    assert_eq!(compute_commission(20, 100, 0, 1000), 20);
}

#[test]
fn settlement_pays_seller_platform_and_winner() {
    let winner = Bid { buyer: named("bob"), amount: 20, timestamp: 9 };
    let transfers = settle(&bounds(0, 1000), &rate(10), &winner);
    assert_eq!(transfers.len(), 3);
    assert_eq!(transfers[0].asset, AssetKind::Funds);
    assert_eq!(transfers[0].from.address, "bob");
    assert_eq!(transfers[0].to.address, "seller");
    assert_eq!(transfers[0].amount, 18);
    assert_eq!(transfers[1].asset, AssetKind::Funds);
    assert_eq!(transfers[1].from.address, "bob");
    assert_eq!(transfers[1].to.address, "admin");
    assert_eq!(transfers[1].amount, 2);
    assert_eq!(transfers[2].asset, AssetKind::Property);
    assert_eq!(transfers[2].from.address, "seller");
    assert_eq!(transfers[2].to.address, "bob");
    assert_eq!(transfers[2].amount, 1);
}

#[test]
fn settlement_adds_up_to_the_winning_amount() {
    for (amount, percent, low, high) in
        [(20i128, 10i128, 0i128, 1000i128), (999, 33, 5, 100), (7, 100, 0, 3), (1, 1, 0, 0)]
    {
        let winner = Bid { buyer: named("bob"), amount, timestamp: 9 };
        let transfers = settle(&bounds(low, high), &rate(percent), &winner);
        assert_eq!(transfers[0].amount + transfers[1].amount, amount);
        assert!(transfers[0].amount >= 0);
        assert!(transfers[1].amount >= 0);
    }
}
