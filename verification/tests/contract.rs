use auction_engine::auctions::behavior::BidReceipt;
use auction_engine::commitment::commitment_hash;
use auction_engine::contract::{AuctionContract, AuctionContractTrait};
use auction_engine::host::Transaction;
use auction_engine::types::{
    AdminData, AssetKind, AuctionData, AuctionError, AuctionPhase, AuctionRegion,
    AuctionSettings, Principal, Transfer,
};

fn who(name: &str) -> Principal {
    Principal::new(String::from(name))
}

fn at(now: u64, signers: &[&str]) -> Transaction {
    Transaction::new(now, signers.iter().map(|s| who(s)).collect())
}

fn ascending(starting_price: i128) -> AuctionSettings {
    AuctionSettings {
        seller: who("seller"),
        property: who("deed"),
        starting_price,
        duration: 3600,
        sealed_phase_time: 0,
        discount_percent: 0,
        discount_frequency: 0,
        commission_min: 0,
        commission_max: 1_000_000,
    }
}

fn falling(starting_price: i128, percent: u32, frequency: u64) -> AuctionSettings {
    AuctionSettings { discount_percent: percent, discount_frequency: frequency, ..ascending(starting_price) }
}

fn sealed(starting_price: i128, sealed_phase_time: u64) -> AuctionSettings {
    AuctionSettings { sealed_phase_time, ..ascending(starting_price) }
}

fn platform(rate: i128, extendable: bool) -> AuctionContract {
    let mut c = AuctionContract::new();
    assert!(c.initialize(who("admin"), 30, rate, extendable).is_ok());
    c
}

fn phase_of(c: &AuctionContract, id: u64) -> Option<AuctionPhase> {
    c.storage.get_state(&AuctionRegion::of(id))
}

fn record(c: &AuctionContract, id: u64) -> &AuctionData {
    c.get_auction(id).unwrap()
}

fn check_transfer(t: &Transfer, asset: AssetKind, from: &str, to: &str, amount: i128) {
    assert_eq!(t.asset, asset);
    assert_eq!(t.from.address, from);
    assert_eq!(t.to.address, to);
    assert_eq!(t.amount, amount);
}

fn refused(r: Result<BidReceipt, AuctionError>) -> Option<AuctionError> {
    r.err()
}

#[test]
fn initialize_writes_the_record_once() {
    let mut c = AuctionContract::new();
    assert_eq!(c.initialize(who("admin"), 45, 10, true), Ok(()));
    assert_eq!(
        c.initialize(who("intruder"), 1, 99, false),
        Err(AuctionError::AlreadyInitialized)
    );
    let admin: &AdminData = c.storage.get_admin().unwrap();
    assert_eq!(admin.admin.address, "admin");
    assert_eq!(admin.anti_snipe_time, 45);
    assert_eq!(admin.commission_rate, 10);
    assert!(admin.extendable_auctions);
}

#[test]
fn initialize_cuts_window_and_rate() {
    let mut c = AuctionContract::new();
    assert!(c.initialize(who("admin"), 61, 101, false).is_ok());
    let admin = c.storage.get_admin().unwrap();
    assert_eq!(admin.anti_snipe_time, 60);
    assert_eq!(admin.commission_rate, 100);

    let mut d = AuctionContract::new();
    assert!(d.initialize(who("admin"), 60, -5, false).is_ok());
    let admin = d.storage.get_admin().unwrap();
    assert_eq!(admin.anti_snipe_time, 60);
    assert_eq!(admin.commission_rate, 0);
}

#[test]
fn start_needs_the_administrative_record() {
    let mut c = AuctionContract::new();
    let r = c.start(&at(5, &["seller"]), ascending(10), 1);
    assert_eq!(r, Err(AuctionError::StateConflict));
    assert!(c.get_auction(1).is_none());
}

#[test]
fn start_needs_the_seller() {
    let mut c = platform(10, true);
    let r = c.start(&at(5, &["someone"]), ascending(10), 1);
    assert_eq!(r, Err(AuctionError::AuthorizationFailure));
    assert!(c.get_auction(1).is_none());
}

#[test]
fn start_refuses_invalid_settings() {
    let mut c = platform(10, true);
    let negative = c.start(&at(5, &["seller"]), ascending(-1), 1);
    assert_eq!(negative, Err(AuctionError::ConfigurationInvalid));
    let crossed = AuctionSettings { commission_min: 5, commission_max: 4, ..ascending(10) };
    assert_eq!(c.start(&at(5, &["seller"]), crossed, 1), Err(AuctionError::ConfigurationInvalid));
    assert!(c.get_auction(1).is_none());
}

#[test]
fn start_refuses_an_identifier_in_use() {
    let mut c = platform(10, true);
    assert_eq!(c.start(&at(5, &["seller"]), ascending(10), 1), Ok(1));
    assert_eq!(c.start(&at(6, &["seller"]), ascending(99), 1), Err(AuctionError::StateConflict));
    assert_eq!(record(&c, 1).settings.starting_price, 10);
    assert_eq!(record(&c, 1).start_time, 5);
}

#[test]
fn start_records_a_fresh_auction() {
    let mut c = platform(10, true);
    assert_eq!(c.start(&at(77, &["seller"]), ascending(10), 42), Ok(42));
    let a = record(&c, 42);
    assert_eq!(a.id, 42);
    assert_eq!(a.start_time, 77);
    assert!(a.bids.is_empty());
    assert!(a.sealed_bids.is_empty());
    assert_eq!(a.settings.seller.address, "seller");
    assert_eq!(phase_of(&c, 42), None);

    assert_eq!(c.start(&at(78, &["seller"]), sealed(10, 100), 43), Ok(43));
    assert_eq!(phase_of(&c, 43), Some(AuctionPhase::Sealed));
}

#[test]
fn get_auction_misses_quietly() {
    let c = platform(10, true);
    assert!(c.get_auction(9).is_none());
}

#[test]
fn ascending_auction_end_to_end() {
    let mut c = platform(10, true);
    assert_eq!(c.start(&at(0, &["seller"]), ascending(10), 1), Ok(1));

    let first = c.place_bid(&at(10, &["alice"]), 1, &who("alice"), 15, &None).unwrap();
    assert!(first.transfers.is_empty());
    assert_eq!(first.phase, None);
    let second = c.place_bid(&at(20, &["bob"]), 1, &who("bob"), 20, &None).unwrap();
    assert!(second.transfers.is_empty());

    let a = record(&c, 1);
    assert_eq!(a.bids.len(), 2);
    assert_eq!(a.bids[0].buyer.address, "alice");
    assert_eq!(a.bids[0].amount, 15);
    assert_eq!(a.bids[0].timestamp, 10);
    assert_eq!(a.bids[1].buyer.address, "bob");
    assert_eq!(a.bids[1].amount, 20);
    assert_eq!(a.bids[1].timestamp, 20);

    let transfers = c.resolve(&at(4000, &[]), 1).unwrap();
    assert_eq!(transfers.len(), 3);
    check_transfer(&transfers[0], AssetKind::Funds, "bob", "seller", 18);
    check_transfer(&transfers[1], AssetKind::Funds, "bob", "admin", 2);
    check_transfer(&transfers[2], AssetKind::Property, "seller", "bob", 1);
    assert_eq!(phase_of(&c, 1), Some(AuctionPhase::Ended));
}

#[test]
fn low_bids_are_invalid() {
    let mut c = platform(10, true);
    assert_eq!(c.start(&at(0, &["seller"]), ascending(10), 1), Ok(1));
    let at_start = c.place_bid(&at(1, &["alice"]), 1, &who("alice"), 10, &None);
    assert_eq!(refused(at_start), Some(AuctionError::InvalidBid));
    assert!(c.place_bid(&at(2, &["alice"]), 1, &who("alice"), 11, &None).is_ok());
    let equal = c.place_bid(&at(3, &["bob"]), 1, &who("bob"), 11, &None);
    assert_eq!(refused(equal), Some(AuctionError::InvalidBid));
    let below = c.place_bid(&at(4, &["bob"]), 1, &who("bob"), 5, &None);
    assert_eq!(refused(below), Some(AuctionError::InvalidBid));
    let a = record(&c, 1);
    assert_eq!(a.bids.len(), 1);
    assert_eq!(a.bids[0].amount, 11);
}

#[test]
fn highest_bid_only_rises() {
    let mut c = platform(10, true);
    assert_eq!(c.start(&at(0, &["seller"]), ascending(10), 1), Ok(1));
    let offers: [i128; 6] = [12, 11, 30, 30, 29, 31];
    let mut highest: i128 = 10;
    for (k, amount) in offers.iter().enumerate() {
        let before = highest;
        let r = c.place_bid(&at(k as u64, &["alice"]), 1, &who("alice"), *amount, &None);
        assert_eq!(r.is_ok(), *amount > before);
        highest = record(&c, 1).bids.last().map(|b| b.amount).unwrap_or(10);
        assert!(highest >= before);
    }
    assert_eq!(highest, 31);
    assert_eq!(record(&c, 1).bids.len(), 3);
}

#[test]
fn place_bid_needs_the_bidder() {
    let mut c = platform(10, true);
    assert_eq!(c.start(&at(0, &["seller"]), ascending(10), 1), Ok(1));
    let r = c.place_bid(&at(1, &["bob"]), 1, &who("alice"), 50, &None);
    assert_eq!(refused(r), Some(AuctionError::AuthorizationFailure));
    assert!(record(&c, 1).bids.is_empty());
}

#[test]
fn place_bid_needs_the_auction() {
    let mut c = platform(10, true);
    let r = c.place_bid(&at(1, &["alice"]), 8, &who("alice"), 50, &None);
    assert_eq!(refused(r), Some(AuctionError::NotFound));
}

#[test]
fn ended_auction_stays_ended() {
    let mut c = platform(10, true);
    assert_eq!(c.start(&at(0, &["seller"]), sealed(10, 100), 1), Ok(1));
    assert!(c.place_bid(&at(100, &["alice"]), 1, &who("alice"), 15, &None).is_ok());
    assert_eq!(phase_of(&c, 1), Some(AuctionPhase::Running));
    assert!(c.resolve(&at(200, &[]), 1).is_ok());
    assert_eq!(phase_of(&c, 1), Some(AuctionPhase::Ended));

    let bid = c.place_bid(&at(300, &["bob"]), 1, &who("bob"), 99, &None);
    assert_eq!(refused(bid), Some(AuctionError::StateConflict));
    let commitment = [3u8; 32];
    let hidden = c.place_sealed_bid(&at(300, &["bob"]), 1, &who("bob"), &commitment);
    assert_eq!(hidden, Err(AuctionError::StateConflict));
    assert_eq!(c.resolve(&at(300, &[]), 1).err(), Some(AuctionError::StateConflict));
    assert_eq!(c.extend(&at(300, &["seller"]), 1, 10), Ok(true));
    assert_eq!(phase_of(&c, 1), Some(AuctionPhase::Ended));
    assert_eq!(record(&c, 1).bids.len(), 1);
}

#[test]
fn resolve_without_bids_is_no_sale() {
    let mut c = platform(10, true);
    assert_eq!(c.start(&at(0, &["seller"]), ascending(10), 1), Ok(1));
    let transfers = c.resolve(&at(5000, &[]), 1).unwrap();
    assert!(transfers.is_empty());
    assert_eq!(phase_of(&c, 1), Some(AuctionPhase::Ended));
    assert!(record(&c, 1).bids.is_empty());
}

#[test]
fn resolve_needs_the_auction() {
    let mut c = platform(10, true);
    assert_eq!(c.resolve(&at(1, &[]), 3).err(), Some(AuctionError::NotFound));
}

#[test]
fn resolve_waits_for_the_sealed_phase() {
    let mut c = platform(10, true);
    assert_eq!(c.start(&at(0, &["seller"]), sealed(10, 100), 1), Ok(1));
    assert_eq!(c.resolve(&at(99, &[]), 1).err(), Some(AuctionError::StateConflict));
    assert_eq!(phase_of(&c, 1), Some(AuctionPhase::Sealed));
    assert!(c.resolve(&at(100, &[]), 1).is_ok());
    assert_eq!(phase_of(&c, 1), Some(AuctionPhase::Ended));
}

#[test]
fn extend_is_off_without_the_flag() {
    let mut c = platform(10, false);
    assert_eq!(c.start(&at(0, &["seller"]), ascending(10), 1), Ok(1));
    assert_eq!(c.extend(&at(1, &["seller"]), 1, 500), Ok(false));
    assert_eq!(record(&c, 1).settings.duration, 3600);
    assert_eq!(c.extend(&at(1, &[]), 77, 500), Ok(false));
}

#[test]
fn extend_lengthens_the_auction() {
    let mut c = platform(10, true);
    assert_eq!(c.start(&at(0, &["seller"]), sealed(10, 50), 1), Ok(1));
    assert_eq!(c.extend(&at(1, &["seller"]), 1, 500), Ok(true));
    let a = record(&c, 1);
    assert_eq!(a.settings.duration, 4100);
    assert_eq!(a.settings.sealed_phase_time, 50);
    assert_eq!(phase_of(&c, 1), Some(AuctionPhase::Sealed));
}

#[test]
fn extend_needs_the_seller_and_the_auction() {
    let mut c = platform(10, true);
    assert_eq!(c.start(&at(0, &["seller"]), ascending(10), 1), Ok(1));
    assert_eq!(c.extend(&at(1, &["alice"]), 1, 500), Err(AuctionError::AuthorizationFailure));
    assert_eq!(c.extend(&at(1, &["seller"]), 2, 500), Err(AuctionError::NotFound));
    assert_eq!(record(&c, 1).settings.duration, 3600);
    let mut bare = AuctionContract::new();
    assert_eq!(bare.extend(&at(1, &["seller"]), 1, 500), Err(AuctionError::NotFound));
}

#[test]
fn extend_refuses_a_duration_too_long() {
    let mut c = platform(10, true);
    assert_eq!(c.start(&at(0, &["seller"]), ascending(10), 1), Ok(1));
    assert_eq!(
        c.extend(&at(1, &["seller"]), 1, u64::MAX - 3599),
        Err(AuctionError::ConfigurationInvalid)
    );
    assert_eq!(record(&c, 1).settings.duration, 3600);
    assert_eq!(c.extend(&at(1, &["seller"]), 1, u64::MAX - 3600), Ok(true));
    assert_eq!(record(&c, 1).settings.duration, u64::MAX);
}

#[test]
fn falling_price_first_meeting_bid_wins() {
    let mut c = platform(5, true);
    assert_eq!(c.start(&at(1000, &["seller"]), falling(1000, 10, 60), 1), Ok(1));

    let early = c.place_bid(&at(1119, &["alice"]), 1, &who("alice"), 899, &None);
    assert_eq!(refused(early), Some(AuctionError::InvalidBid));
    assert_eq!(phase_of(&c, 1), None);

    let receipt = c.place_bid(&at(1120, &["alice"]), 1, &who("alice"), 800, &None).unwrap();
    assert_eq!(receipt.phase, Some(AuctionPhase::Ended));
    assert_eq!(receipt.transfers.len(), 3);
    check_transfer(&receipt.transfers[0], AssetKind::Funds, "alice", "seller", 760);
    check_transfer(&receipt.transfers[1], AssetKind::Funds, "alice", "admin", 40);
    check_transfer(&receipt.transfers[2], AssetKind::Property, "seller", "alice", 1);
    assert_eq!(phase_of(&c, 1), Some(AuctionPhase::Ended));

    let late = c.place_bid(&at(1121, &["bob"]), 1, &who("bob"), 5000, &None);
    assert_eq!(refused(late), Some(AuctionError::StateConflict));
    assert_eq!(c.resolve(&at(9000, &[]), 1).err(), Some(AuctionError::StateConflict));
    assert_eq!(record(&c, 1).bids.len(), 1);
}

#[test]
fn falling_price_without_a_bid_is_no_sale() {
    let mut c = platform(5, true);
    assert_eq!(c.start(&at(1000, &["seller"]), falling(1000, 10, 60), 1), Ok(1));
    let transfers = c.resolve(&at(9000, &[]), 1).unwrap();
    assert!(transfers.is_empty());
    assert_eq!(phase_of(&c, 1), Some(AuctionPhase::Ended));
}

#[test]
fn sealed_bid_round_trip() {
    let salt = [7u8; 32];
    let other_salt = [8u8; 32];
    let mut c = platform(10, true);
    assert_eq!(c.start(&at(0, &["seller"]), sealed(10, 100), 1), Ok(1));

    let commitment = commitment_hash(100, &salt);
    assert_eq!(c.place_sealed_bid(&at(50, &["alice"]), 1, &who("alice"), &commitment), Ok(()));
    assert_eq!(record(&c, 1).sealed_bids.len(), 1);
    assert_eq!(record(&c, 1).sealed_bids[0].buyer.address, "alice");
    assert_eq!(record(&c, 1).sealed_bids[0].commitment, commitment);

    let too_soon = c.place_bid(&at(99, &["alice"]), 1, &who("alice"), 100, &Some(salt));
    assert_eq!(refused(too_soon), Some(AuctionError::StateConflict));
    assert_eq!(phase_of(&c, 1), Some(AuctionPhase::Sealed));

    let wrong_salt = c.place_bid(&at(100, &["alice"]), 1, &who("alice"), 100, &Some(other_salt));
    assert_eq!(refused(wrong_salt), Some(AuctionError::InvalidReveal));
    let wrong_amount = c.place_bid(&at(100, &["alice"]), 1, &who("alice"), 101, &Some(salt));
    assert_eq!(refused(wrong_amount), Some(AuctionError::InvalidReveal));
    let wrong_bidder = c.place_bid(&at(100, &["bob"]), 1, &who("bob"), 100, &Some(salt));
    assert_eq!(refused(wrong_bidder), Some(AuctionError::InvalidReveal));
    assert_eq!(record(&c, 1).sealed_bids.len(), 1);
    assert!(record(&c, 1).bids.is_empty());
    assert_eq!(phase_of(&c, 1), Some(AuctionPhase::Sealed));

    let receipt = c.place_bid(&at(100, &["alice"]), 1, &who("alice"), 100, &Some(salt)).unwrap();
    assert_eq!(receipt.phase, Some(AuctionPhase::Running));
    assert!(receipt.transfers.is_empty());
    let a = record(&c, 1);
    assert!(a.sealed_bids.is_empty());
    assert_eq!(a.bids.len(), 1);
    assert_eq!(a.bids[0].buyer.address, "alice");
    assert_eq!(a.bids[0].amount, 100);
    assert_eq!(phase_of(&c, 1), Some(AuctionPhase::Running));

    let again = c.place_bid(&at(101, &["alice"]), 1, &who("alice"), 100, &Some(salt));
    assert_eq!(refused(again), Some(AuctionError::InvalidReveal));
}

#[test]
fn revealed_bid_must_pass_the_price_rule() {
    let salt = [7u8; 32];
    let mut c = platform(10, true);
    assert_eq!(c.start(&at(0, &["seller"]), sealed(10, 100), 1), Ok(1));
    let commitment = commitment_hash(10, &salt);
    assert_eq!(c.place_sealed_bid(&at(1, &["alice"]), 1, &who("alice"), &commitment), Ok(()));
    let r = c.place_bid(&at(100, &["alice"]), 1, &who("alice"), 10, &Some(salt));
    assert_eq!(refused(r), Some(AuctionError::InvalidBid));
    assert_eq!(record(&c, 1).sealed_bids.len(), 1);
}

#[test]
fn sealed_bids_only_while_sealed() {
    let commitment = [9u8; 32];
    let mut c = platform(10, true);
    assert_eq!(c.start(&at(0, &["seller"]), sealed(10, 100), 1), Ok(1));
    assert_eq!(c.start(&at(0, &["seller"]), ascending(10), 2), Ok(2));
    assert_eq!(
        c.place_sealed_bid(&at(1, &["bob"]), 1, &who("alice"), &commitment),
        Err(AuctionError::AuthorizationFailure)
    );
    assert_eq!(
        c.place_sealed_bid(&at(1, &["alice"]), 3, &who("alice"), &commitment),
        Err(AuctionError::NotFound)
    );
    assert_eq!(
        c.place_sealed_bid(&at(1, &["alice"]), 2, &who("alice"), &commitment),
        Err(AuctionError::StateConflict)
    );
    assert_eq!(c.place_sealed_bid(&at(99, &["alice"]), 1, &who("alice"), &commitment), Ok(()));
    assert_eq!(
        c.place_sealed_bid(&at(100, &["alice"]), 1, &who("alice"), &commitment),
        Err(AuctionError::StateConflict)
    );
    assert_eq!(record(&c, 1).sealed_bids.len(), 1);
    assert_eq!(phase_of(&c, 1), Some(AuctionPhase::Sealed));
}

#[test]
fn unrevealed_commitments_are_forfeited() {
    let mut c = platform(10, true);
    assert_eq!(c.start(&at(0, &["seller"]), sealed(10, 100), 1), Ok(1));
    assert_eq!(c.place_sealed_bid(&at(1, &["alice"]), 1, &who("alice"), &[1u8; 32]), Ok(()));
    assert_eq!(c.place_sealed_bid(&at(2, &["bob"]), 1, &who("bob"), &[2u8; 32]), Ok(()));
    let transfers = c.resolve(&at(100, &[]), 1).unwrap();
    assert!(transfers.is_empty());
    assert!(record(&c, 1).sealed_bids.is_empty());
    assert_eq!(phase_of(&c, 1), Some(AuctionPhase::Ended));
}

#[test]
fn auctions_do_not_interfere() {
    let mut c = platform(10, true);
    assert_eq!(c.start(&at(0, &["seller"]), ascending(10), 1), Ok(1));
    assert_eq!(c.start(&at(0, &["seller"]), ascending(10), 2), Ok(2));
    assert!(c.place_bid(&at(1, &["alice"]), 1, &who("alice"), 50, &None).is_ok());
    assert!(c.resolve(&at(2, &[]), 1).is_ok());
    assert!(record(&c, 2).bids.is_empty());
    assert_eq!(phase_of(&c, 2), None);
    assert!(c.place_bid(&at(3, &["bob"]), 2, &who("bob"), 11, &None).is_ok());
}

#[test]
fn upgrade_needs_the_administrator() {
    let bare = AuctionContract::new();
    assert_eq!(bare.upgrade(&at(1, &["admin"])), Err(AuctionError::NotFound));
    let c = platform(10, true);
    assert_eq!(c.upgrade(&at(1, &["seller"])), Err(AuctionError::AuthorizationFailure));
    assert_eq!(c.upgrade(&at(1, &["seller", "admin"])), Ok(()));
}

#[test]
fn version_is_reported() {
    let c = AuctionContract::new();
    assert_eq!(c.version(), vec![0, 1, 4]);
}

#[test]
fn restore_checks_the_records() {
    let admin = || AdminData {
        admin: who("admin"),
        anti_snipe_time: 30,
        commission_rate: 10,
        extendable_auctions: true,
    };
    let fresh = || AuctionData::new(ascending(10), 5, Vec::new(), Vec::new(), 9);

    let c = AuctionContract::restore(Some(admin()), Some(fresh()), None).ok().unwrap();
    assert_eq!(record(&c, 9).start_time, 5);
    assert_eq!(phase_of(&c, 9), None);
    assert!(c.storage.has_admin());

    assert!(AuctionContract::restore(None, None, None).is_ok());
    assert_eq!(
        AuctionContract::restore(None, Some(fresh()), None).err(),
        Some(AuctionError::ConfigurationInvalid)
    );
    assert_eq!(
        AuctionContract::restore(Some(admin()), None, Some(AuctionPhase::Running)).err(),
        Some(AuctionError::ConfigurationInvalid)
    );
    assert_eq!(
        AuctionContract::restore(Some(admin()), Some(fresh()), Some(AuctionPhase::Sealed)).err(),
        Some(AuctionError::ConfigurationInvalid)
    );
    let bad_admin = AdminData { commission_rate: 101, ..admin() };
    assert_eq!(
        AuctionContract::restore(Some(bad_admin), None, None).err(),
        Some(AuctionError::ConfigurationInvalid)
    );
    let mut restored =
        AuctionContract::restore(Some(admin()), Some(fresh()), Some(AuctionPhase::Ended))
            .ok()
            .unwrap();
    assert_eq!(
        restored.resolve(&at(10, &[]), 9).err(),
        Some(AuctionError::StateConflict)
    );
}
