use crate::host::Transaction;
use crate::market::{reconcile_data, MarketData};
use crate::types::{AuctionError, Principal};
use vstd::prelude::*;

verus! {

/// The administrative record of the royalty contract.
#[derive(Debug)]
pub struct RoyaltyAdminData {
    pub admin: Principal,
    pub commission_rate: i128,
}

/// Who stands behind a delivery of market data: the subscriber that asked
/// for it, the broker that delivers it, and the router between them.
#[derive(Debug)]
pub struct Envelope {
    pub subscriber: Principal,
    pub broker: Principal,
    pub router: Principal,
}

/// One change of the broker whitelist: a broker allowed or denied.
#[derive(Debug)]
pub struct BrokerEntry {
    pub broker: Principal,
    pub allowed: bool,
}

/// A quotation as recorded under its topic.
#[derive(Debug)]
pub struct Quotation {
    pub topic: Principal,
    pub data: MarketData,
}

/// What the latest change says of `who`, if any change names it.
pub open spec fn latest_entry(changes: Seq<BrokerEntry>, who: Seq<char>) -> Option<bool>
    decreases changes.len(),
{
    if changes.len() == 0 {
        None
    } else if changes.last().broker@ == who {
        Some(changes.last().allowed)
    } else {
        latest_entry(changes.drop_last(), who)
    }
}

/// The quotation recorded last under `topic`, if there is one.
pub open spec fn latest_quotation(feed: Seq<Quotation>, topic: Seq<char>) -> Option<MarketData>
    decreases feed.len(),
{
    if feed.len() == 0 {
        None
    } else if feed.last().topic@ == topic {
        Some(feed.last().data)
    } else {
        latest_quotation(feed.drop_last(), topic)
    }
}

/// A broker is whitelisted while the latest change that names it allows it.
pub open spec fn is_whitelisted(changes: Seq<BrokerEntry>, who: Seq<char>) -> bool {
    latest_entry(changes, who) == Some(true)
}

/// A further change decides for the broker it names and for no other.
pub proof fn lemma_change_decides(changes: Seq<BrokerEntry>, entry: BrokerEntry, who: Seq<char>)
    ensures
        latest_entry(changes.push(entry), who) == if entry.broker@ == who {
            Some(entry.allowed)
        } else {
            latest_entry(changes, who)
        },
        is_whitelisted(changes.push(entry), who) == if entry.broker@ == who {
            entry.allowed
        } else {
            is_whitelisted(changes, who)
        },
{
    assert(changes.push(entry).drop_last() =~= changes);
}

/// A further quotation is the latest under its topic and leaves the others
/// as they were.
pub proof fn lemma_quotation_is_latest(feed: Seq<Quotation>, entry: Quotation, topic: Seq<char>)
    ensures
        latest_quotation(feed.push(entry), topic) == if entry.topic@ == topic {
            Some(entry.data)
        } else {
            latest_quotation(feed, topic)
        },
{
    assert(feed.push(entry).drop_last() =~= feed);
}

/// What a change of the whitelist by the administrator comes to: without an
/// administrative record `NotFound`, without the administrator's signature
/// `AuthorizationFailure`, and nothing changed either way; otherwise the
/// change is recorded.
pub open spec fn broker_change_outcome(
    admin: Option<RoyaltyAdminData>,
    before: Seq<BrokerEntry>,
    after: Seq<BrokerEntry>,
    tx: &Transaction,
    broker: Principal,
    allowed: bool,
    r: Result<(), AuctionError>,
) -> bool {
    match admin {
        None => r == Err::<(), AuctionError>(AuctionError::NotFound) && after == before,
        Some(a) => if !tx.authorizes(a.admin@) {
            r == Err::<(), AuctionError>(AuctionError::AuthorizationFailure) && after == before
        } else {
            r is Ok && after == before.push(BrokerEntry { broker, allowed })
        },
    }
}

/// The times from which a license runs: when its next payment falls due,
/// or zero where it does not recur, and when its grace period is over.
#[derive(Clone, Copy, Debug, PartialEq, Eq, Structural)]
pub struct LicenseSchedule {
    pub recur_time: u64,
    pub grace_time: u64,
}

/// Whether the periods of a license are in order: one that recurs does so
/// at longer intervals than its grace period.
pub open spec fn periods_in_order(recur_period: u64, grace_period: u64) -> bool {
    recur_period > grace_period || recur_period == 0
}

/// Works out the schedule of a license created at `created_time`. Periods
/// out of order, and times past what the ledger clock can hold, are refused
/// with `ConfigurationInvalid`.
pub fn license_schedule(recur_period: u64, grace_period: u64, created_time: u64) -> (r: Result<
    LicenseSchedule,
    AuctionError,
>)
    ensures
        r == if periods_in_order(recur_period, grace_period) && created_time + recur_period
            <= u64::MAX && created_time + grace_period <= u64::MAX {
            Ok::<LicenseSchedule, AuctionError>(
                LicenseSchedule {
                    recur_time: if recur_period > 0 {
                        (created_time + recur_period) as u64
                    } else {
                        0
                    },
                    grace_time: (created_time + grace_period) as u64,
                },
            )
        } else {
            Err::<LicenseSchedule, AuctionError>(AuctionError::ConfigurationInvalid)
        },
{
    if !(recur_period > grace_period || recur_period == 0) {
        return Err(AuctionError::ConfigurationInvalid);
    }
    if recur_period > u64::MAX - created_time || grace_period > u64::MAX - created_time {
        return Err(AuctionError::ConfigurationInvalid);
    }
    let recur_time: u64 = if recur_period > 0 {
        created_time + recur_period
    } else {
        0
    };
    Ok(LicenseSchedule { recur_time, grace_time: created_time + grace_period })
}

/// What the administrator may do to the broker whitelist.
pub trait Subscriber {
    /// The administrative record, if it has been written.
    spec fn administrator(&self) -> Option<RoyaltyAdminData>;

    /// The changes of the whitelist, oldest first.
    spec fn whitelist_changes(&self) -> Seq<BrokerEntry>;

    /// Puts a broker on the whitelist.
    fn allow_broker(&mut self, tx: &Transaction, broker: Principal) -> (r: Result<
        (),
        AuctionError,
    >)
        ensures
            final(self).administrator() == old(self).administrator(),
            broker_change_outcome(
                old(self).administrator(),
                old(self).whitelist_changes(),
                final(self).whitelist_changes(),
                tx,
                broker,
                true,
                r,
            ),
    ;

    /// Takes a broker off the whitelist.
    fn deny_broker(&mut self, tx: &Transaction, broker: Principal) -> (r: Result<
        (),
        AuctionError,
    >)
        ensures
            final(self).administrator() == old(self).administrator(),
            broker_change_outcome(
                old(self).administrator(),
                old(self).whitelist_changes(),
                final(self).whitelist_changes(),
                tx,
                broker,
                false,
                r,
            ),
    ;
}

/// The part of the royalty contract that keeps the administrative record,
/// the broker whitelist and the market data that whitelisted brokers
/// deliver.
pub struct RoyaltyContract {
    pub admin: Option<RoyaltyAdminData>,
    pub brokers: Vec<BrokerEntry>,
    pub feed: Vec<Quotation>,
}

impl RoyaltyContract {
    /// Whether `who` is on the whitelist.
    pub open spec fn whitelisted(&self, who: Seq<char>) -> bool {
        is_whitelisted(self.brokers@, who)
    }

    /// The quotation recorded last under `topic`.
    pub open spec fn quotation(&self, topic: Seq<char>) -> Option<MarketData> {
        latest_quotation(self.feed@, topic)
    }

    /// A contract with nothing recorded.
    pub fn new() -> (c: RoyaltyContract)
        ensures
            c.admin is None,
            c.brokers@.len() == 0,
            c.feed@.len() == 0,
    {
        RoyaltyContract { admin: None, brokers: Vec::new(), feed: Vec::new() }
    }

    /// Writes the administrative record, once: a second call fails with
    /// `AlreadyInitialized` and changes nothing.
    pub fn initialize(&mut self, admin: Principal, commission_rate: i128) -> (r: Result<
        (),
        AuctionError,
    >)
        ensures
            old(self).admin is Some ==> r == Err::<(), AuctionError>(
                AuctionError::AlreadyInitialized,
            ) && *final(self) == *old(self),
            old(self).admin is None ==> r is Ok && final(self).admin == Some(
                RoyaltyAdminData { admin, commission_rate },
            ) && final(self).brokers == old(self).brokers && final(self).feed == old(self).feed,
    {
        if self.admin.is_some() {
            return Err(AuctionError::AlreadyInitialized);
        }
        self.admin = Some(RoyaltyAdminData { admin, commission_rate });
        Ok(())
    }

    /// Records a quotation under `topic` as a broker's delivery would.
    pub fn test_oracle_feed(&mut self, topic: Principal, price: i128, asset: Principal)
        ensures
            final(self).feed@ == old(self).feed@.push(
                Quotation { topic, data: MarketData { price, asset } },
            ),
            final(self).quotation(topic@) == Some(MarketData { price, asset }),
            final(self).admin == old(self).admin,
            final(self).brokers == old(self).brokers,
    {
        proof {
            lemma_quotation_is_latest(
                self.feed@,
                Quotation { topic, data: MarketData { price, asset } },
                topic@,
            );
        }
        self.record(topic, MarketData { price, asset });
    }

    /// Records a reconciled quotation under its topic, over any earlier one.
    fn record(&mut self, topic: Principal, data: MarketData)
        ensures
            final(self).feed@ == old(self).feed@.push(Quotation { topic, data }),
            final(self).admin == old(self).admin,
            final(self).brokers == old(self).brokers,
    {
        let mut data = data;
        let _ = reconcile_data(&mut data);
        self.feed.push(Quotation { topic, data });
    }

    /// Records a change of the whitelist: the broker is taken off it where
    /// `remove` is set, and put on it otherwise.
    pub fn update_broker_whitelist(&mut self, broker: &Principal, remove: bool)
        ensures
            final(self).brokers@ == old(self).brokers@.push(
                BrokerEntry { broker: *broker, allowed: !remove },
            ),
            forall|who: Seq<char>| #[trigger]
                final(self).whitelisted(who) == if who == broker@ {
                    !remove
                } else {
                    old(self).whitelisted(who)
                },
            final(self).admin == old(self).admin,
            final(self).feed == old(self).feed,
    {
        let entry = BrokerEntry { broker: broker.duplicate(), allowed: !remove };
        assert forall|who: Seq<char>| #[trigger]
            is_whitelisted(self.brokers@.push(entry), who) == if who == broker@ {
                !remove
            } else {
                is_whitelisted(self.brokers@, who)
            } by {
            lemma_change_decides(self.brokers@, entry, who);
        }
        self.brokers.push(entry);
    }

    /// Says whether a broker is on the whitelist: `true` where it is, and
    /// `NotFound` where it is not.
    pub fn require_broker_whitelisted(&self, broker: &Principal) -> (r: Result<bool, AuctionError>)
        ensures
            r == if self.whitelisted(broker@) {
                Ok::<bool, AuctionError>(true)
            } else {
                Err::<bool, AuctionError>(AuctionError::NotFound)
            },
    {
        let mut k: usize = self.brokers.len();
        assert(self.brokers@.subrange(0, k as int) =~= self.brokers@);
        while k > 0
            invariant
                k <= self.brokers@.len(),
                latest_entry(self.brokers@, broker@) == latest_entry(
                    self.brokers@.subrange(0, k as int),
                    broker@,
                ),
            decreases k,
        {
            let ghost head = self.brokers@.subrange(0, k as int);
            assert(head.last() == self.brokers@[k - 1]);
            assert(head.drop_last() =~= self.brokers@.subrange(0, k - 1));
            if self.brokers[k - 1].broker.same(broker) {
                if self.brokers[k - 1].allowed {
                    return Ok(true);
                } else {
                    return Err(AuctionError::NotFound);
                }
            }
            k = k - 1;
        }
        assert(self.brokers@.subrange(0, 0).len() == 0);
        Err(AuctionError::NotFound)
    }

    /// Looks up the quotation recorded last under `topic`.
    pub fn get_quotation(&self, topic: &Principal) -> (r: Option<&MarketData>)
        ensures
            r == match self.quotation(topic@) {
                Some(data) => Some(&data),
                None => None,
            },
    {
        let mut k: usize = self.feed.len();
        assert(self.feed@.subrange(0, k as int) =~= self.feed@);
        while k > 0
            invariant
                k <= self.feed@.len(),
                latest_quotation(self.feed@, topic@) == latest_quotation(
                    self.feed@.subrange(0, k as int),
                    topic@,
                ),
            decreases k,
        {
            let ghost head = self.feed@.subrange(0, k as int);
            assert(head.last() == self.feed@[k - 1]);
            assert(head.drop_last() =~= self.feed@.subrange(0, k - 1));
            if self.feed[k - 1].topic.same(topic) {
                return Some(&self.feed[k - 1].data);
            }
            k = k - 1;
        }
        assert(self.feed@.subrange(0, 0).len() == 0);
        None
    }

    /// Admits a request for market data: the broker must be whitelisted and
    /// the subscriber must have signed.
    pub fn on_request(&self, tx: &Transaction, topic: &Principal, envelope: &Envelope) -> (r:
        Result<(), AuctionError>)
        ensures
            r == if !self.whitelisted(envelope.broker@) {
                Err::<(), AuctionError>(AuctionError::NotFound)
            } else if !tx.authorizes(envelope.subscriber@) {
                Err::<(), AuctionError>(AuctionError::AuthorizationFailure)
            } else {
                Ok::<(), AuctionError>(())
            },
    {
        match self.require_broker_whitelisted(&envelope.broker) {
            Err(e) => Err(e),
            Ok(_) => {
                if tx.require_auth(&envelope.subscriber) {
                    Ok(())
                } else {
                    Err(AuctionError::AuthorizationFailure)
                }
            },
        }
    }

    /// Takes in market data that a whitelisted broker hands over in answer
    /// to a request, and records it under its topic.
    pub fn on_sync_receive(&mut self, topic: Principal, envelope: &Envelope, data: MarketData) -> (r:
        Result<(), AuctionError>)
        ensures
            old(self).whitelisted(envelope.broker@) ==> r is Ok && final(self).feed@ == old(
                self,
            ).feed@.push(Quotation { topic, data }) && final(self).quotation(topic@) == Some(data),
            !old(self).whitelisted(envelope.broker@) ==> r == Err::<(), AuctionError>(
                AuctionError::NotFound,
            ) && final(self).feed == old(self).feed,
            final(self).admin == old(self).admin,
            final(self).brokers == old(self).brokers,
    {
        match self.require_broker_whitelisted(&envelope.broker) {
            Err(e) => Err(e),
            Ok(_) => {
                proof {
                    lemma_quotation_is_latest(self.feed@, Quotation { topic, data }, topic@);
                }
                self.record(topic, data);
                Ok(())
            },
        }
    }

    /// Takes in market data that a whitelisted broker publishes of its own
    /// accord: the broker must have signed as well.
    pub fn on_async_receive(
        &mut self,
        tx: &Transaction,
        topic: Principal,
        envelope: &Envelope,
        data: MarketData,
    ) -> (r: Result<(), AuctionError>)
        ensures
            r == if !old(self).whitelisted(envelope.broker@) {
                Err::<(), AuctionError>(AuctionError::NotFound)
            } else if !tx.authorizes(envelope.broker@) {
                Err::<(), AuctionError>(AuctionError::AuthorizationFailure)
            } else {
                Ok::<(), AuctionError>(())
            },
            r is Ok ==> final(self).feed@ == old(self).feed@.push(Quotation { topic, data })
                && final(self).quotation(topic@) == Some(data),
            r is Err ==> final(self).feed == old(self).feed,
            final(self).admin == old(self).admin,
            final(self).brokers == old(self).brokers,
    {
        match self.require_broker_whitelisted(&envelope.broker) {
            Err(e) => Err(e),
            Ok(_) => {
                if !tx.require_auth(&envelope.broker) {
                    return Err(AuctionError::AuthorizationFailure);
                }
                proof {
                    lemma_quotation_is_latest(self.feed@, Quotation { topic, data }, topic@);
                }
                self.record(topic, data);
                Ok(())
            },
        }
    }

    /// Records a change of the whitelist that the administrator has signed.
    fn change_broker(&mut self, tx: &Transaction, broker: Principal, allowed: bool) -> (r: Result<
        (),
        AuctionError,
    >)
        ensures
            final(self).admin == old(self).admin,
            final(self).feed == old(self).feed,
            broker_change_outcome(
                old(self).admin,
                old(self).brokers@,
                final(self).brokers@,
                tx,
                broker,
                allowed,
                r,
            ),
    {
        let signed = match &self.admin {
            None => {
                return Err(AuctionError::NotFound);
            },
            Some(a) => tx.require_auth(&a.admin),
        };
        if !signed {
            return Err(AuctionError::AuthorizationFailure);
        }
        self.update_broker_whitelist(&broker, !allowed);
        Ok(())
    }
}

impl Subscriber for RoyaltyContract {
    open spec fn administrator(&self) -> Option<RoyaltyAdminData> {
        self.admin
    }

    open spec fn whitelist_changes(&self) -> Seq<BrokerEntry> {
        self.brokers@
    }

    fn allow_broker(&mut self, tx: &Transaction, broker: Principal) -> (r: Result<
        (),
        AuctionError,
    >) {
        self.change_broker(tx, broker, true)
    }

    fn deny_broker(&mut self, tx: &Transaction, broker: Principal) -> (r: Result<
        (),
        AuctionError,
    >) {
        self.change_broker(tx, broker, false)
    }
}

} // verus!
