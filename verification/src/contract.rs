use crate::auctions::behavior::{
    bid_outcome, is_state_well_formed, resolve_outcome, revealed_digest, sealed_bid_outcome, state_wf, BidReceipt,
    Dispatcher,
};
use crate::host::Transaction;
use crate::phase::{advanced, initial, rank};
use crate::storage::Storage;
use crate::types::{
    AdminData, AuctionData, AuctionError, AuctionPhase, AuctionRegion, AuctionSettings,
    Principal, Transfer,
};
use vstd::prelude::*;

verus! {

/// Well-formedness of the stored state: a valid administrative record, which
/// is there as soon as any auction is; every auction stored under its own
/// identifier and well-formed together with its phase; no phase record
/// without its auction.
pub open spec fn contract_wf(s: &Storage) -> bool {
    &&& s.admin() matches Some(a) ==> a.valid()
    &&& forall|id: u64| #[trigger]
        s.auctions().contains_key(id) ==> {
            &&& s.admin() is Some
            &&& s.auctions()[id].id == id
            &&& state_wf(&s.auctions()[id], s.phase_of(id))
        }
    &&& forall|id: u64| #[trigger] s.phases().contains_key(id) ==> s.auctions().contains_key(id)
}

/// The store after an operation on the auction `id` alone: its record may
/// be another, its phase record is `phase` where that is one, and all else
/// is as before.
pub open spec fn touched_only(
    before: &Storage,
    after: &Storage,
    id: u64,
    phase: Option<AuctionPhase>,
) -> bool {
    &&& after.admin() == before.admin()
    &&& after.auctions() == before.auctions().insert(id, after.auctions()[id])
    &&& after.phases() == match phase {
        Some(p) => before.phases().insert(id, p),
        None => before.phases(),
    }
}

/// No auction has left the store or gone back in its life: each is in the
/// phase it was in or a later one, and one that had ended has ended still.
pub open spec fn moved_forward(before: &Storage, after: &Storage) -> bool {
    &&& forall|id: u64| #[trigger]
        before.auctions().contains_key(id) ==> after.auctions().contains_key(id) && rank(
            before.phase_of(id),
        ) <= rank(after.phase_of(id))
    &&& forall|id: u64|
        before.phase_of(id) == Some(AuctionPhase::Ended) ==> #[trigger] after.phase_of(id)
            == Some(AuctionPhase::Ended)
}

/// The administrative record that `initialize` writes: the anti-snipe
/// window cut to a minute, the commission rate cut to a percentage.
pub open spec fn admin_record(
    admin: Principal,
    anti_snipe_time: u64,
    commission_rate: i128,
    extendable_auctions: bool,
) -> AdminData {
    AdminData {
        admin,
        anti_snipe_time: if anti_snipe_time > 60 {
            60
        } else {
            anti_snipe_time
        },
        commission_rate: if commission_rate < 0 {
            0
        } else if commission_rate > 100 {
            100
        } else {
            commission_rate
        },
        extendable_auctions,
    }
}

/// What `initialize` comes to: it writes the administrative record once,
/// and fails with `AlreadyInitialized`, changing nothing, ever after.
pub open spec fn initialize_outcome(
    before: &Storage,
    after: &Storage,
    admin: Principal,
    anti_snipe_time: u64,
    commission_rate: i128,
    extendable_auctions: bool,
    r: Result<(), AuctionError>,
) -> bool {
    if before.admin() is Some {
        r == Err::<(), AuctionError>(AuctionError::AlreadyInitialized) && after.same_as(before)
    } else {
        &&& r is Ok
        &&& after.admin() == Some(
            admin_record(admin, anti_snipe_time, commission_rate, extendable_auctions),
        )
        &&& after.auctions() == before.auctions()
        &&& after.phases() == before.phases()
    }
}

/// Why `start` is refused, if it is. The checks come in this order: the
/// administrative record, the seller's signature, the settings, the
/// identifier.
pub open spec fn start_refusal(
    before: &Storage,
    tx: &Transaction,
    settings: &AuctionSettings,
    id: u64,
) -> Option<AuctionError> {
    if before.admin() is None {
        Some(AuctionError::StateConflict)
    } else if !tx.authorizes(settings.seller@) {
        Some(AuctionError::AuthorizationFailure)
    } else if !settings.valid() {
        Some(AuctionError::ConfigurationInvalid)
    } else if before.auctions().contains_key(id) {
        Some(AuctionError::StateConflict)
    } else {
        None
    }
}

/// What `start` comes to: a refusal that changes nothing, or a new record
/// under `id` with the given settings, the ledger time as its start, no
/// bids and no commitments, in its initial phase.
pub open spec fn start_outcome(
    before: &Storage,
    after: &Storage,
    tx: &Transaction,
    settings: AuctionSettings,
    id: u64,
    r: Result<u64, AuctionError>,
) -> bool {
    match start_refusal(before, tx, &settings, id) {
        Some(e) => r == Err::<u64, AuctionError>(e) && after.same_as(before),
        None => {
            &&& r == Ok::<u64, AuctionError>(id)
            &&& after.auctions()[id].settings == settings
            &&& after.auctions()[id].start_time == tx.now
            &&& after.auctions()[id].bids@.len() == 0
            &&& after.auctions()[id].sealed_bids@.len() == 0
            &&& after.auctions()[id].id == id
            &&& touched_only(before, after, id, initial(&settings))
        },
    }
}

/// What `place_bid` comes to. Without the bidder's signature it fails with
/// `AuthorizationFailure`, without the auction with `NotFound`; otherwise
/// the protocol that governs the auction decides.
pub open spec fn place_bid_outcome(
    before: &Storage,
    after: &Storage,
    tx: &Transaction,
    id: u64,
    buyer: Principal,
    amount: i128,
    salt: Option<[u8; 32]>,
    r: Result<BidReceipt, AuctionError>,
) -> bool {
    if !tx.authorizes(buyer@) {
        r == Err::<BidReceipt, AuctionError>(AuctionError::AuthorizationFailure) && after.same_as(
            before,
        )
    } else if !before.auctions().contains_key(id) {
        r == Err::<BidReceipt, AuctionError>(AuctionError::NotFound) && after.same_as(before)
    } else {
        let record = before.auctions()[id];
        let variant = Dispatcher::chosen(&record.settings);
        &&& bid_outcome(
            variant.price(&record, tx.now),
            variant.rule(),
            variant.closes_on_bid(),
            &record,
            &after.auctions()[id],
            before.phase_of(id),
            &before.admin()->0,
            buyer,
            amount,
            revealed_digest(amount, salt),
            tx,
            r,
        )
        &&& match r {
            Ok(receipt) => touched_only(before, after, id, receipt.phase),
            Err(_) => after.same_as(before),
        }
    }
}

/// What `place_sealed_bid` comes to, in the same way.
pub open spec fn place_sealed_bid_outcome(
    before: &Storage,
    after: &Storage,
    tx: &Transaction,
    id: u64,
    buyer: Principal,
    sealed_amount: [u8; 32],
    r: Result<(), AuctionError>,
) -> bool {
    if !tx.authorizes(buyer@) {
        r == Err::<(), AuctionError>(AuctionError::AuthorizationFailure) && after.same_as(before)
    } else if !before.auctions().contains_key(id) {
        r == Err::<(), AuctionError>(AuctionError::NotFound) && after.same_as(before)
    } else {
        &&& sealed_bid_outcome(
            &before.auctions()[id],
            &after.auctions()[id],
            before.phase_of(id),
            buyer,
            sealed_amount,
            tx,
            r,
        )
        &&& match r {
            Ok(_) => touched_only(before, after, id, None),
            Err(_) => after.same_as(before),
        }
    }
}

/// What `resolve` comes to: `NotFound` without the auction; otherwise the
/// protocol that governs the auction names the winner, and the auction is
/// recorded as `Ended`.
pub open spec fn resolve_contract_outcome(
    before: &Storage,
    after: &Storage,
    tx: &Transaction,
    id: u64,
    r: Result<Vec<Transfer>, AuctionError>,
) -> bool {
    if !before.auctions().contains_key(id) {
        r == Err::<Vec<Transfer>, AuctionError>(AuctionError::NotFound) && after.same_as(before)
    } else {
        let record = before.auctions()[id];
        &&& resolve_outcome(
            Dispatcher::chosen(&record.settings).winner(&record),
            &record,
            &after.auctions()[id],
            before.phase_of(id),
            &before.admin()->0,
            tx.now,
            r,
        )
        &&& match r {
            Ok(_) => touched_only(before, after, id, Some(AuctionPhase::Ended)),
            Err(_) => after.same_as(before),
        }
    }
}

/// What `extend` comes to. Where the platform does not allow extensions the
/// answer is `false` and nothing changes. Otherwise it needs the auction and
/// the seller's signature, and adds to the duration; a duration past what a
/// ledger time can hold is refused.
pub open spec fn extend_outcome(
    before: &Storage,
    after: &Storage,
    tx: &Transaction,
    id: u64,
    duration: u64,
    r: Result<bool, AuctionError>,
) -> bool {
    match before.admin() {
        None => r == Err::<bool, AuctionError>(AuctionError::NotFound) && after.same_as(before),
        Some(admin) => if !admin.extendable_auctions {
            r == Ok::<bool, AuctionError>(false) && after.same_as(before)
        } else if !before.auctions().contains_key(id) {
            r == Err::<bool, AuctionError>(AuctionError::NotFound) && after.same_as(before)
        } else if !tx.authorizes(before.auctions()[id].settings.seller@) {
            r == Err::<bool, AuctionError>(AuctionError::AuthorizationFailure) && after.same_as(
                before,
            )
        } else if before.auctions()[id].settings.duration + duration > u64::MAX {
            r == Err::<bool, AuctionError>(AuctionError::ConfigurationInvalid) && after.same_as(
                before,
            )
        } else {
            let record = before.auctions()[id];
            &&& r == Ok::<bool, AuctionError>(true)
            &&& after.auctions()[id] == (AuctionData {
                settings: AuctionSettings {
                    duration: (record.settings.duration + duration) as u64,
                    ..record.settings
                },
                ..record
            })
            &&& touched_only(before, after, id, None)
        },
    }
}

/// What `upgrade` needs: the administrative record and the signature of
/// the administrator it names.
pub open spec fn upgrade_outcome(s: &Storage, tx: &Transaction) -> Result<(), AuctionError> {
    match s.admin() {
        None => Err(AuctionError::NotFound),
        Some(admin) => if tx.authorizes(admin.admin@) {
            Ok(())
        } else {
            Err(AuctionError::AuthorizationFailure)
        },
    }
}

/// The administrative record is written once. A second `initialize` fails
/// with `AlreadyInitialized` whatever it is given, and the record stays the
/// one that the first wrote.
pub proof fn lemma_initialize_only_once(
    empty: &Storage,
    first: &Storage,
    second: &Storage,
    admin: Principal,
    anti_snipe_time: u64,
    commission_rate: i128,
    extendable_auctions: bool,
    r1: Result<(), AuctionError>,
    other_admin: Principal,
    other_anti_snipe_time: u64,
    other_commission_rate: i128,
    other_extendable_auctions: bool,
    r2: Result<(), AuctionError>,
)
    requires
        initialize_outcome(
            empty,
            first,
            admin,
            anti_snipe_time,
            commission_rate,
            extendable_auctions,
            r1,
        ),
        r1 is Ok,
        initialize_outcome(
            first,
            second,
            other_admin,
            other_anti_snipe_time,
            other_commission_rate,
            other_extendable_auctions,
            r2,
        ),
    ensures
        r2 == Err::<(), AuctionError>(AuctionError::AlreadyInitialized),
        second.same_as(first),
        second.admin() == Some(
            admin_record(admin, anti_snipe_time, commission_rate, extendable_auctions),
        ),
{
}

/// Where the platform does not allow extensions, `extend` answers `false`
/// and changes nothing. Where it does, an extension by more than nothing
/// that the seller has signed, and that the duration can hold, succeeds and
/// leaves the auction with a longer duration, its sealed phase and its
/// phase record untouched. No extension ever shortens an auction or changes
/// the bidding protocol that governs it.
pub proof fn lemma_extend(
    before: &Storage,
    after: &Storage,
    tx: &Transaction,
    id: u64,
    duration: u64,
    r: Result<bool, AuctionError>,
)
    requires
        extend_outcome(before, after, tx, id, duration, r),
        before.admin() is Some,
    ensures
        !before.admin()->0.extendable_auctions ==> r == Ok::<bool, AuctionError>(false)
            && after.same_as(before),
        before.admin()->0.extendable_auctions && before.auctions().contains_key(id)
            && tx.authorizes(before.auctions()[id].settings.seller@) && 0 < duration
            && before.auctions()[id].settings.duration + duration <= u64::MAX ==> {
            &&& r == Ok::<bool, AuctionError>(true)
            &&& after.auctions()[id].settings.duration == before.auctions()[id].settings.duration
                + duration
            &&& after.auctions()[id].settings.duration > before.auctions()[id].settings.duration
            &&& after.auctions()[id].settings.sealed_phase_time
                == before.auctions()[id].settings.sealed_phase_time
            &&& after.phases() == before.phases()
        },
        r is Ok && before.auctions().contains_key(id) ==> {
            &&& after.auctions().contains_key(id)
            &&& after.auctions()[id].settings.duration
                >= before.auctions()[id].settings.duration
            &&& Dispatcher::chosen(&after.auctions()[id].settings) == Dispatcher::chosen(
                &before.auctions()[id].settings,
            )
        },
{
}

/// Resolving an auction that has taken no bid is no sale: where the auction
/// is neither sealed nor ended, `resolve` succeeds, asks for no transfer,
/// and leaves the auction ended.
pub proof fn lemma_resolve_without_bids(
    before: &Storage,
    after: &Storage,
    tx: &Transaction,
    id: u64,
    r: Result<Vec<Transfer>, AuctionError>,
)
    requires
        resolve_contract_outcome(before, after, tx, id, r),
        before.auctions().contains_key(id),
        before.auctions()[id].bids@.len() == 0,
        advanced(before.phase_of(id), &before.auctions()[id], tx.now) != Some(
            AuctionPhase::Sealed,
        ),
        advanced(before.phase_of(id), &before.auctions()[id], tx.now) != Some(AuctionPhase::Ended),
    ensures
        r is Ok,
        r->Ok_0@.len() == 0,
        after.phase_of(id) == Some(AuctionPhase::Ended),
        after.auctions()[id].bids@.len() == 0,
{
}

/// A second `resolve` never settles again: on an auction that has ended it
/// fails with `StateConflict` and changes nothing.
pub proof fn lemma_resolve_only_once(
    before: &Storage,
    after: &Storage,
    tx: &Transaction,
    id: u64,
    r: Result<Vec<Transfer>, AuctionError>,
)
    requires
        resolve_contract_outcome(before, after, tx, id, r),
        before.auctions().contains_key(id),
        before.phase_of(id) == Some(AuctionPhase::Ended),
    ensures
        r == Err::<Vec<Transfer>, AuctionError>(AuctionError::StateConflict),
        after.same_as(before),
{
}

/// The operations of the auction contract. Each runs inside one ledger
/// transaction, of which `tx` says what the host knows; each either
/// succeeds or fails and leaves the stored state untouched.
pub trait AuctionContractTrait {
    /// The stored state.
    spec fn store(&self) -> Storage;

    /// Checks that a code upgrade may go ahead.
    fn upgrade(&self, tx: &Transaction) -> (r: Result<(), AuctionError>)
        ensures
            r == upgrade_outcome(&self.store(), tx),
    ;

    /// The record of an auction, or nothing where there is none.
    fn get_auction(&self, auction_id: u64) -> (r: Option<&AuctionData>)
        ensures
            r == if self.store().auctions().contains_key(auction_id) {
                Some(&self.store().auctions()[auction_id])
            } else {
                None
            },
    ;

    /// Ends an auction and says which transfers settle it.
    fn resolve(&mut self, tx: &Transaction, auction_id: u64) -> (r: Result<
        Vec<Transfer>,
        AuctionError,
    >)
        requires
            contract_wf(&old(self).store()),
        ensures
            contract_wf(&final(self).store()),
            moved_forward(&old(self).store(), &final(self).store()),
            r is Err ==> final(self).store().same_as(&old(self).store()),
            resolve_contract_outcome(&old(self).store(), &final(self).store(), tx, auction_id, r),
    ;

    /// Takes in a commitment to a hidden amount.
    fn place_sealed_bid(
        &mut self,
        tx: &Transaction,
        auction_id: u64,
        buyer: &Principal,
        sealed_amount: &[u8; 32],
    ) -> (r: Result<(), AuctionError>)
        requires
            contract_wf(&old(self).store()),
        ensures
            contract_wf(&final(self).store()),
            moved_forward(&old(self).store(), &final(self).store()),
            r is Err ==> final(self).store().same_as(&old(self).store()),
            place_sealed_bid_outcome(
                &old(self).store(),
                &final(self).store(),
                tx,
                auction_id,
                *buyer,
                *sealed_amount,
                r,
            ),
    ;

    /// Places a plain bid, or with a salt reveals a commitment as one.
    fn place_bid(
        &mut self,
        tx: &Transaction,
        auction_id: u64,
        buyer: &Principal,
        amount: i128,
        salt: &Option<[u8; 32]>,
    ) -> (r: Result<BidReceipt, AuctionError>)
        requires
            contract_wf(&old(self).store()),
        ensures
            contract_wf(&final(self).store()),
            moved_forward(&old(self).store(), &final(self).store()),
            r is Err ==> final(self).store().same_as(&old(self).store()),
            place_bid_outcome(
                &old(self).store(),
                &final(self).store(),
                tx,
                auction_id,
                *buyer,
                amount,
                *salt,
                r,
            ),
    ;

    /// Lengthens an auction by `duration`, where the platform allows it.
    fn extend(&mut self, tx: &Transaction, auction_id: u64, duration: u64) -> (r: Result<
        bool,
        AuctionError,
    >)
        requires
            contract_wf(&old(self).store()),
        ensures
            contract_wf(&final(self).store()),
            moved_forward(&old(self).store(), &final(self).store()),
            r is Err ==> final(self).store().same_as(&old(self).store()),
            extend_outcome(&old(self).store(), &final(self).store(), tx, auction_id, duration, r),
    ;

    /// Starts an auction under the identifier that the host has drawn.
    fn start(&mut self, tx: &Transaction, auction_settings: AuctionSettings, id: u64) -> (r: Result<
        u64,
        AuctionError,
    >)
        requires
            contract_wf(&old(self).store()),
        ensures
            contract_wf(&final(self).store()),
            moved_forward(&old(self).store(), &final(self).store()),
            r is Err ==> final(self).store().same_as(&old(self).store()),
            start_outcome(&old(self).store(), &final(self).store(), tx, auction_settings, id, r),
    ;

    /// Writes the administrative record, once.
    fn initialize(
        &mut self,
        admin: Principal,
        anti_snipe_time: u64,
        commission_rate: i128,
        extendable_auctions: bool,
    ) -> (r: Result<(), AuctionError>)
        requires
            contract_wf(&old(self).store()),
        ensures
            contract_wf(&final(self).store()),
            moved_forward(&old(self).store(), &final(self).store()),
            r is Err ==> final(self).store().same_as(&old(self).store()),
            initialize_outcome(
                &old(self).store(),
                &final(self).store(),
                admin,
                anti_snipe_time,
                commission_rate,
                extendable_auctions,
                r,
            ),
    ;

    /// The version of the contract.
    fn version(&self) -> (v: Vec<u32>)
        ensures
            v@ == seq![0u32, 1u32, 4u32],
    ;
}

/// The auction contract over its stored state.
pub struct AuctionContract {
    pub storage: Storage,
}

impl AuctionContract {
    /// A contract with nothing stored.
    pub fn new() -> (c: AuctionContract)
        ensures
            contract_wf(&c.storage),
            c.storage.admin() is None,
            c.storage.auctions() == Map::<u64, AuctionData>::empty(),
            c.storage.phases() == Map::<u64, AuctionPhase>::empty(),
    {
        AuctionContract { storage: Storage::new() }
    }
}

/// Whether the records that one transaction has read make a well-formed
/// state: a valid administrative record, if there is one; an auction only
/// beside an administrative record, and well-formed together with its
/// phase; a phase only beside its auction.
pub open spec fn records_wf(
    admin: Option<AdminData>,
    auction: Option<AuctionData>,
    phase: Option<AuctionPhase>,
) -> bool {
    &&& admin matches Some(a) ==> a.valid()
    &&& match auction {
        Some(record) => admin is Some && state_wf(&record, phase),
        None => phase is None,
    }
}

impl AuctionContract {
    /// Rebuilds the contract over the records that one transaction has read
    /// from the ledger: the administrative record, one auction and its
    /// phase, each if it is there. Records that do not make a well-formed
    /// state are refused with `ConfigurationInvalid`.
    pub fn restore(
        admin: Option<AdminData>,
        auction: Option<AuctionData>,
        phase: Option<AuctionPhase>,
    ) -> (r: Result<AuctionContract, AuctionError>)
        ensures
            match r {
                Ok(c) => {
                    &&& records_wf(admin, auction, phase)
                    &&& contract_wf(&c.storage)
                    &&& c.storage.admin() == admin
                    &&& c.storage.auctions() == match auction {
                        Some(record) => Map::<u64, AuctionData>::empty().insert(record.id, record),
                        None => Map::<u64, AuctionData>::empty(),
                    }
                    &&& c.storage.phases() == match (auction, phase) {
                        (Some(record), Some(p)) => Map::<u64, AuctionPhase>::empty().insert(
                            record.id,
                            p,
                        ),
                        _ => Map::<u64, AuctionPhase>::empty(),
                    }
                },
                Err(e) => e == AuctionError::ConfigurationInvalid && !records_wf(
                    admin,
                    auction,
                    phase,
                ),
            },
    {
        let mut storage = Storage::new();
        let has_admin = admin.is_some();
        match admin {
            Some(a) => {
                if !a.is_valid() {
                    return Err(AuctionError::ConfigurationInvalid);
                }
                storage.set_admin(a);
            },
            None => {},
        }
        match auction {
            Some(record) => {
                if !has_admin || !is_state_well_formed(&record, phase) {
                    return Err(AuctionError::ConfigurationInvalid);
                }
                let id = record.id;
                storage.set_auction(record);
                match phase {
                    Some(p) => {
                        storage.set_state(&AuctionRegion::of(id), p);
                    },
                    None => {},
                }
            },
            None => {
                if phase.is_some() {
                    return Err(AuctionError::ConfigurationInvalid);
                }
            },
        }
        Ok(AuctionContract { storage })
    }
}

impl AuctionContractTrait for AuctionContract {
    open spec fn store(&self) -> Storage {
        self.storage
    }

    fn upgrade(&self, tx: &Transaction) -> (r: Result<(), AuctionError>) {
        match self.storage.get_admin() {
            Err(e) => Err(e),
            Ok(admin) => {
                if tx.require_auth(&admin.admin) {
                    Ok(())
                } else {
                    Err(AuctionError::AuthorizationFailure)
                }
            },
        }
    }

    fn get_auction(&self, auction_id: u64) -> (r: Option<&AuctionData>) {
        match self.storage.get_auction(auction_id) {
            Ok(a) => Some(a),
            Err(_) => None,
        }
    }

    fn resolve(&mut self, tx: &Transaction, auction_id: u64) -> (r: Result<
        Vec<Transfer>,
        AuctionError,
    >) {
        let region = AuctionRegion::of(auction_id);
        let phase = self.storage.get_state(&region);
        let ghost before = self.storage;
        let mut record = match self.storage.take_auction(auction_id) {
            Ok(record) => record,
            Err(e) => {
                assert(self.storage.auctions() =~= before.auctions());
                return Err(e);
            },
        };
        let result = match self.storage.get_admin() {
            Ok(admin) => Dispatcher::select(&record.settings).resolve(
                &mut record,
                phase,
                admin,
                tx.now,
            ),
            Err(e) => Err(e),
        };
        self.storage.set_auction(record);
        match result {
            Ok(transfers) => {
                self.storage.set_state(&region, AuctionPhase::Ended);
                assert(self.storage.auctions() =~= before.auctions().insert(
                    auction_id,
                    self.storage.auctions()[auction_id],
                ));
                Ok(transfers)
            },
            Err(e) => {
                assert(self.storage.auctions() =~= before.auctions());
                Err(e)
            },
        }
    }

    fn place_sealed_bid(
        &mut self,
        tx: &Transaction,
        auction_id: u64,
        buyer: &Principal,
        sealed_amount: &[u8; 32],
    ) -> (r: Result<(), AuctionError>) {
        if !tx.require_auth(buyer) {
            return Err(AuctionError::AuthorizationFailure);
        }
        let region = AuctionRegion::of(auction_id);
        let phase = self.storage.get_state(&region);
        let ghost before = self.storage;
        let mut record = match self.storage.take_auction(auction_id) {
            Ok(record) => record,
            Err(e) => {
                assert(self.storage.auctions() =~= before.auctions());
                return Err(e);
            },
        };
        let result = Dispatcher::select(&record.settings).place_sealed_bid(
            &mut record,
            phase,
            buyer,
            sealed_amount,
            tx,
        );
        self.storage.set_auction(record);
        match result {
            Ok(_) => {
                assert(self.storage.auctions() =~= before.auctions().insert(
                    auction_id,
                    self.storage.auctions()[auction_id],
                ));
                Ok(())
            },
            Err(e) => {
                assert(self.storage.auctions() =~= before.auctions());
                Err(e)
            },
        }
    }

    fn place_bid(
        &mut self,
        tx: &Transaction,
        auction_id: u64,
        buyer: &Principal,
        amount: i128,
        salt: &Option<[u8; 32]>,
    ) -> (r: Result<BidReceipt, AuctionError>) {
        if !tx.require_auth(buyer) {
            return Err(AuctionError::AuthorizationFailure);
        }
        let region = AuctionRegion::of(auction_id);
        let phase = self.storage.get_state(&region);
        let ghost before = self.storage;
        let mut record = match self.storage.take_auction(auction_id) {
            Ok(record) => record,
            Err(e) => {
                assert(self.storage.auctions() =~= before.auctions());
                return Err(e);
            },
        };
        let result = match self.storage.get_admin() {
            Ok(admin) => Dispatcher::select(&record.settings).place_bid(
                &mut record,
                phase,
                admin,
                buyer,
                amount,
                salt,
                tx,
            ),
            Err(e) => Err(e),
        };
        self.storage.set_auction(record);
        match result {
            Ok(receipt) => {
                match receipt.phase {
                    Some(p) => {
                        self.storage.set_state(&region, p);
                    },
                    None => {},
                }
                assert(self.storage.auctions() =~= before.auctions().insert(
                    auction_id,
                    self.storage.auctions()[auction_id],
                ));
                Ok(receipt)
            },
            Err(e) => {
                assert(self.storage.auctions() =~= before.auctions());
                Err(e)
            },
        }
    }

    fn extend(&mut self, tx: &Transaction, auction_id: u64, duration: u64) -> (r: Result<
        bool,
        AuctionError,
    >) {
        let extendable = match self.storage.get_admin() {
            Ok(admin) => admin.extendable_auctions,
            Err(e) => {
                return Err(e);
            },
        };
        if !extendable {
            return Ok(false);
        }
        let ghost before = self.storage;
        let mut record = match self.storage.take_auction(auction_id) {
            Ok(record) => record,
            Err(e) => {
                assert(self.storage.auctions() =~= before.auctions());
                return Err(e);
            },
        };
        let refusal: Option<AuctionError> = if !tx.require_auth(&record.settings.seller) {
            Some(AuctionError::AuthorizationFailure)
        } else if duration > u64::MAX - record.settings.duration {
            Some(AuctionError::ConfigurationInvalid)
        } else {
            None
        };
        match refusal {
            Some(e) => {
                self.storage.set_auction(record);
                assert(self.storage.auctions() =~= before.auctions());
                Err(e)
            },
            None => {
                record.settings.duration = record.settings.duration + duration;
                self.storage.set_auction(record);
                assert(self.storage.auctions() =~= before.auctions().insert(
                    auction_id,
                    self.storage.auctions()[auction_id],
                ));
                Ok(true)
            },
        }
    }

    fn start(&mut self, tx: &Transaction, auction_settings: AuctionSettings, id: u64) -> (r: Result<
        u64,
        AuctionError,
    >) {
        if !self.storage.has_admin() {
            return Err(AuctionError::StateConflict);
        }
        if !tx.require_auth(&auction_settings.seller) {
            return Err(AuctionError::AuthorizationFailure);
        }
        let record = AuctionData::new(auction_settings, tx.now, Vec::new(), Vec::new(), id);
        let phase = match Dispatcher::select(&record.settings).start(&record) {
            Ok(phase) => phase,
            Err(e) => {
                return Err(e);
            },
        };
        if self.storage.has_auction(id) {
            return Err(AuctionError::StateConflict);
        }
        let ghost before = self.storage;
        self.storage.set_auction(record);
        match phase {
            Some(p) => {
                self.storage.set_state(&AuctionRegion::of(id), p);
            },
            None => {},
        }
        assert(self.storage.auctions() =~= before.auctions().insert(
            id,
            self.storage.auctions()[id],
        ));
        Ok(id)
    }

    fn initialize(
        &mut self,
        admin: Principal,
        anti_snipe_time: u64,
        commission_rate: i128,
        extendable_auctions: bool,
    ) -> (r: Result<(), AuctionError>) {
        if self.storage.has_admin() {
            return Err(AuctionError::AlreadyInitialized);
        }
        let record = AdminData {
            admin,
            anti_snipe_time: if anti_snipe_time > 60 {
                60
            } else {
                anti_snipe_time
            },
            commission_rate: if commission_rate < 0 {
                0
            } else if commission_rate > 100 {
                100
            } else {
                commission_rate
            },
            extendable_auctions,
        };
        self.storage.set_admin(record);
        Ok(())
    }

    fn version(&self) -> (v: Vec<u32>) {
        let mut v: Vec<u32> = Vec::new();
        v.push(0);
        v.push(1);
        v.push(4);
        assert(v@ =~= seq![0u32, 1u32, 4u32]);
        v
    }
}

} // verus!
