use auction_engine::host::Transaction;
use auction_engine::storage::Storage;
use auction_engine::types::{
    AdminData, AuctionData, AuctionError, AuctionPhase, AuctionRegion, AuctionSettings, DataKey,
    Principal,
};

fn name(text: &str) -> Principal {
    Principal::new(String::from(text))
}

fn lot(id: u64, starting_price: i128) -> AuctionData {
    let settings = AuctionSettings {
        seller: name("seller"),
        property: name("deed"),
        starting_price,
        duration: 100,
        sealed_phase_time: 0,
        discount_percent: 0,
        discount_frequency: 0,
        commission_min: 0,
        commission_max: 10,
    };
    AuctionData::new(settings, 0, Vec::new(), Vec::new(), id)
}

fn office() -> AdminData {
    AdminData { admin: name("admin"), anti_snipe_time: 1, commission_rate: 2, extendable_auctions: false }
}

#[test]
fn empty_store_holds_nothing() {
    let s = Storage::new();
    assert!(!s.has_admin());
    assert!(!s.has(&DataKey::AdminData));
    assert!(!s.has(&DataKey::AuctionData(1)));
    assert!(!s.has(&DataKey::BrokerWhitelist(name("broker"))));
    assert_eq!(s.get_admin().err(), Some(AuctionError::NotFound));
    assert_eq!(s.get_auction(1).err(), Some(AuctionError::NotFound));
    assert_eq!(s.get_state(&AuctionRegion::of(1)), None);
}

#[test]
fn last_write_wins() {
    let mut s = Storage::new();
    s.set_auction(lot(1, 10));
    s.set_auction(lot(2, 20));
    s.set_auction(lot(1, 30));
    assert_eq!(s.get_auction(1).unwrap().settings.starting_price, 30);
    assert_eq!(s.get_auction(2).unwrap().settings.starting_price, 20);
    assert!(s.has_auction(1));
    assert!(s.has(&DataKey::AuctionData(2)));
    assert!(!s.has_auction(3));

    s.set_admin(office());
    s.set_admin(AdminData { commission_rate: 9, ..office() });
    assert_eq!(s.get_admin().unwrap().commission_rate, 9);
    assert!(s.has(&DataKey::AdminData));
}

#[test]
fn remove_and_take() {
    let mut s = Storage::new();
    s.set_admin(office());
    s.set_auction(lot(1, 10));
    s.set_auction(lot(2, 20));
    s.remove(&DataKey::AuctionData(1));
    assert!(!s.has_auction(1));
    assert!(s.has_auction(2));
    s.remove(&DataKey::AuctionData(1));
    s.remove(&DataKey::BrokerWhitelist(name("broker")));
    assert!(s.has_admin());
    s.remove(&DataKey::AdminData);
    assert!(!s.has_admin());

    let taken = s.take_auction(2).unwrap();
    assert_eq!(taken.id, 2);
    assert_eq!(taken.settings.starting_price, 20);
    assert!(!s.has_auction(2));
    assert_eq!(s.take_auction(2).err(), Some(AuctionError::NotFound));
}

#[test]
fn phase_records_by_region() {
    let mut s = Storage::new();
    let one = AuctionRegion::of(1);
    let two = AuctionRegion::of(2);
    assert_eq!(one.auction_id(), 1);
    s.set_state(&one, AuctionPhase::Sealed);
    s.set_state(&two, AuctionPhase::Running);
    s.set_state(&one, AuctionPhase::Ended);
    assert_eq!(s.get_state(&one), Some(AuctionPhase::Ended));
    assert_eq!(s.get_state(&two), Some(AuctionPhase::Running));
    s.remove_state(&one);
    assert_eq!(s.get_state(&one), None);
    assert_eq!(s.get_state(&two), Some(AuctionPhase::Running));
}

#[test]
fn signatures_are_looked_up_by_address() {
    let tx = Transaction::new(9, vec![name("alice"), name("bob")]);
    assert_eq!(tx.now, 9);
    assert!(tx.require_auth(&name("alice")));
    assert!(tx.require_auth(&name("bob")));
    assert!(!tx.require_auth(&name("carol")));
    assert!(!tx.require_auth(&name("")));
    assert!(!Transaction::new(9, Vec::new()).require_auth(&name("alice")));
}

#[test]
fn principals_compare_by_address() {
    let a = name("alice");
    let copy = a.duplicate();
    assert!(a.same(&copy));
    assert_eq!(copy.address, "alice");
    assert!(!a.same(&name("Alice")));
    assert!(name("").same(&name("")));
    let s = lot(1, 10).settings;
    let t = s.duplicate();
    assert_eq!(t.seller.address, "seller");
    assert_eq!(t.starting_price, 10);
    assert_eq!(t.duration, 100);
    assert!(!s.is_discounted());
    assert!(!s.is_sealed());
}
