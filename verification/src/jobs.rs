//! What the background jobs of the desktop program decide: under which key
//! a result is kept, whether a result is still fresh, and whether a job has
//! to run at all. Fetching and storing are not done here.

use std::path::PathBuf;
use std::sync::Arc;
use vstd::prelude::*;
use vstd::std_specs::cmp::PartialEqSpecImpl;
use crate::response::ShortItem;
use crate::text::{decimal, decimal_string};

verus! {

/// The key of the catalogue of items.
pub const WFM_MANIFEST_KEY: &'static str = "wfm_manifest";

/// The key that says that the catalogue is being loaded.
pub const WFM_MANIFEST_PENDING_KEY: &'static str = "wfm_manifest_pending";

/// The key of the signed-in account.
pub const WFM_USER_KEY: &'static str = "wfm_user";

/// The key of the notes for the user.
pub const WFM_NOTIFICATIONS_KEY: &'static str = "__wfm_notifications";

/// The key of the messages that the live feed brought since the last frame.
pub const WFM_WS_EVENTS_KEY: &'static str = "__wfm_websocket_events";

/// The key of the orders of the signed-in account.
pub const WFM_EXISTING_PROFILE_ORDERS_KEY: &'static str = "existing_profile_orders";

/// The key that says that the orders of the account are being fetched.
pub const WFM_EXISTING_PROFILE_ORDERS_PENDING_KEY: &'static str = "existing_profile_orders_pending";

/// The key of the time at which the orders of the account were fetched.
pub const WFM_EXISTING_PROFILE_ORDERS_TIMESTAMP_KEY: &'static str =
    "existing_profile_orders_timestamp";

/// The age in seconds beyond which the orders of the account are fetched
/// again.
pub const WFM_EXISTING_PROFILE_ORDERS_EXPIRATION_SECONDS: u64 = 120;

/// The age in seconds up to which the order book of an item is not fetched
/// again.
pub const ITEM_ORDERS_EXPIRATION_SECONDS: u64 = 60;

/// The age in seconds from which on the catalogue on disk is not used any
/// more: one day.
pub const WFM_MANIFEST_MAX_AGE: u64 = 86400;

/// The key of the inventory.
pub const INVENTORY_KEY: &'static str = "__wmi_inventory";

/// Where a job stands.
#[derive(Debug)]
pub enum JobState<T> {
    /// Not started.
    Idle,
    /// Running.
    Pending,
    /// Over, with what it brought or with what went wrong.
    Done(Result<T, String>),
}

/// Two states are the same when both are idle, both pending or both done,
/// whatever a job that is done has brought.
impl<T> PartialEq for JobState<T> {
    fn eq(&self, other: &JobState<T>) -> (same: bool) {
        match (self, other) {
            (JobState::Pending, JobState::Pending) => true,
            (JobState::Idle, JobState::Idle) => true,
            (JobState::Done(_), JobState::Done(_)) => true,
            _ => false,
        }
    }
}

impl<T> PartialEqSpecImpl for JobState<T> {
    open spec fn obeys_eq_spec() -> bool {
        true
    }

    open spec fn eq_spec(&self, other: &JobState<T>) -> bool {
        (*self is Idle && *other is Idle) || (*self is Pending && *other is Pending) || (*self
            is Done && *other is Done)
    }
}

impl<T> Default for JobState<T> {
    fn default() -> (state: JobState<T>)
        ensures
            state is Idle,
    {
        JobState::Idle
    }
}

/// The job that loads the ledger from disk.
#[derive(Clone, Copy, Debug, PartialEq, Eq, Structural)]
pub struct LedgerLoadJob;

/// The key that says that the ledger is being loaded.
pub const LEDGER_PENDING_KEY: &'static str = "__WMI_LEDGER_PENDING";

/// Where a picture comes from.
#[derive(Debug)]
pub enum TextureSource {
    Url(String),
    Data(Vec<u8>),
    File(PathBuf),
}

/// The catalogue of items, with the time at which it was fetched.
#[derive(Debug)]
pub struct WarframeMarketManifest {
    pub timestamp: u64,
    pub items: Arc<Vec<ShortItem>>,
}

impl Clone for WarframeMarketManifest {
    /// A second handle on the same catalogue.
    fn clone(&self) -> (manifest: WarframeMarketManifest)
        ensures
            manifest == *self,
    {
        WarframeMarketManifest { timestamp: self.timestamp, items: Arc::clone(&self.items) }
    }
}

impl WarframeMarketManifest {
    /// Whether the catalogue can still be used at the time `now`: it is
    /// less than a day old.
    pub fn is_fresh(&self, now: u64) -> (fresh: bool)
        requires
            self.timestamp <= now,
        ensures
            fresh == (now - self.timestamp < WFM_MANIFEST_MAX_AGE),
    {
        now - self.timestamp < WFM_MANIFEST_MAX_AGE
    }
}

/// The key under which the order book of `item` is kept.
pub fn item_orders_storage_key(item: &ShortItem) -> (key: String)
    ensures
        key@ == "item_orders_"@ + item.item_name@ + "_"@ + item.id@,
{
    String::from_str("item_orders_").concat(item.item_name.as_str()).concat("_").concat(
        item.id.as_str(),
    )
}

/// The key under which the market statistics of `item` are kept.
pub fn get_market_statistics_storage_key(item: &ShortItem) -> (key: String)
    ensures
        key@ == "market_statistics_"@ + item.item_name@ + "_"@ + item.id@,
{
    String::from_str("market_statistics_").concat(item.item_name.as_str()).concat("_").concat(
        item.id.as_str(),
    )
}

/// The key that says that what belongs under `key` is being fetched.
pub fn pending_storage_key(key: &str) -> (pending: String)
    ensures
        pending@ == key@ + "_pending"@,
{
    String::from_str(key).concat("_pending")
}

/// The key of the time at which what is under `key` was fetched.
pub fn timestamp_storage_key(key: &str) -> (timestamp: String)
    ensures
        timestamp@ == key@ + "_timestamp"@,
{
    String::from_str(key).concat("_timestamp")
}

/// The key of the moment from which a spinner shows that the job under
/// `pending_key` is over.
pub fn show_until_storage_key(pending_key: &str) -> (key: String)
    ensures
        key@ == pending_key@ + "-show-until"@,
{
    String::from_str(pending_key).concat("-show-until")
}

/// What a spinner says when its job is over, where nobody said what it is
/// to say: the text it showed, and ` finished`.
pub fn finished_text(text: &str, finished: Option<&str>) -> (shown: String)
    ensures
        finished is Some ==> shown@ == finished->Some_0@,
        finished is None ==> shown@ == text@ + " finished"@,
{
    match finished {
        Some(finished) => String::from_str(finished),
        None => String::from_str(text).concat(" finished"),
    }
}

/// For how many seconds more an order book that was fetched `elapsed`
/// seconds ago counts as fresh, or `None` where it is fresh no more.
pub fn item_orders_valid_for(elapsed: u64) -> (valid_for: Option<u64>)
    ensures
        elapsed < ITEM_ORDERS_EXPIRATION_SECONDS ==> valid_for == Some(
            (ITEM_ORDERS_EXPIRATION_SECONDS - elapsed) as u64,
        ),
        elapsed >= ITEM_ORDERS_EXPIRATION_SECONDS ==> valid_for is None,
{
    if elapsed < ITEM_ORDERS_EXPIRATION_SECONDS {
        Some(ITEM_ORDERS_EXPIRATION_SECONDS - elapsed)
    } else {
        None
    }
}

/// Why a job is not taken on.
#[derive(Clone, Copy, Debug, PartialEq, Eq, Structural)]
pub enum JobRefusal {
    /// A job of the same kind is under way.
    AlreadyPending,
    /// What the job would fetch is there already.
    AlreadyLoaded,
    /// What the job would fetch is there and counts as fresh for `seconds`
    /// seconds more.
    StillValid { seconds: u64 },
}

/// Whether a job is taken on that must not run twice at a time: it is,
/// unless one of its kind is pending.
pub fn guard_pending(pending: bool) -> (verdict: Result<(), JobRefusal>)
    ensures
        pending ==> verdict == Err::<(), JobRefusal>(JobRefusal::AlreadyPending),
        !pending ==> verdict == Ok::<(), JobRefusal>(()),
{
    if pending {
        Err(JobRefusal::AlreadyPending)
    } else {
        Ok(())
    }
}

/// Whether the job that fetches the order book of an item is taken on. It
/// is not while the book that is there counts as fresh, `elapsed` being the
/// seconds since it was fetched, nor while such a job is pending.
pub fn guard_item_orders(elapsed: Option<u64>, pending: bool) -> (verdict: Result<(), JobRefusal>)
    ensures
        verdict == (if elapsed is Some && elapsed->Some_0 < ITEM_ORDERS_EXPIRATION_SECONDS {
            Err::<(), JobRefusal>(
                JobRefusal::StillValid {
                    seconds: (ITEM_ORDERS_EXPIRATION_SECONDS - elapsed->Some_0) as u64,
                },
            )
        } else if pending {
            Err::<(), JobRefusal>(JobRefusal::AlreadyPending)
        } else {
            Ok::<(), JobRefusal>(())
        }),
{
    if let Some(elapsed) = elapsed {
        if let Some(seconds) = item_orders_valid_for(elapsed) {
            return Err(JobRefusal::StillValid { seconds });
        }
    }
    guard_pending(pending)
}

/// Whether the job that fetches the market statistics of an item is taken
/// on. It is not while such a job is pending, nor when the statistics are
/// there.
pub fn guard_market_statistics(pending: bool, present: bool) -> (verdict: Result<(), JobRefusal>)
    ensures
        verdict == (if pending {
            Err::<(), JobRefusal>(JobRefusal::AlreadyPending)
        } else if present {
            Err::<(), JobRefusal>(JobRefusal::AlreadyLoaded)
        } else {
            Ok::<(), JobRefusal>(())
        }),
{
    if pending {
        Err(JobRefusal::AlreadyPending)
    } else if present {
        Err(JobRefusal::AlreadyLoaded)
    } else {
        Ok(())
    }
}

/// The status of the account to keep, given the one that the live feed has
/// just reported, if it reported one: the reported one, or none at all
/// where nothing is kept yet. `None` means: keep what is kept.
pub fn status_to_keep<S>(kept: bool, reported: Option<S>) -> (next: Option<Option<S>>)
    ensures
        (!kept || reported is Some) ==> next == Some(reported),
        (kept && reported is None) ==> next is None,
{
    if !kept || reported.is_some() {
        Some(reported)
    } else {
        None
    }
}

/// What the top bar says of who is signed in, with what is to be said of
/// the orders behind the name.
pub fn signed_in_text(username: Option<&str>, orders: &str) -> (text: String)
    ensures
        username is Some ==> text@ == "Signed in as "@ + username->Some_0@ + orders@,
        username is None ==> text@ == "Not signed in to warframe.market"@,
{
    match username {
        Some(name) => String::from_str("Signed in as ").concat(name).concat(orders),
        None => String::from_str("Not signed in to warframe.market"),
    }
}

/// Whether the orders of the account have to be fetched: they are not
/// there, or they are there, the time of their fetch is known, and they
/// are more than 120 seconds old.
pub fn profile_orders_due(present: bool, age: Option<u64>) -> (due: bool)
    ensures
        due == (!present || (age is Some && age->Some_0
            > WFM_EXISTING_PROFILE_ORDERS_EXPIRATION_SECONDS)),
{
    if !present {
        true
    } else {
        match age {
            Some(age) => age > WFM_EXISTING_PROFILE_ORDERS_EXPIRATION_SECONDS,
            None => false,
        }
    }
}

/// Whether the catalogue has to be loaded: somebody is signed in, and the
/// catalogue is not there.
pub fn manifest_due(signed_in: bool, present: bool) -> (due: bool)
    ensures
        due == (signed_in && !present),
{
    signed_in && !present
}

/// What the top bar says of the orders that are loaded: how many sell
/// orders and how many buy orders.
pub fn orders_loaded_text(sell_orders: u64, buy_orders: u64) -> (text: String)
    ensures
        text@ == ", loaded "@ + decimal(sell_orders as nat) + "s/"@ + decimal(buy_orders as nat)
            + "b orders"@,
{
    String::from_str(", loaded ").concat(decimal_string(sell_orders).as_str()).concat(
        "s/",
    ).concat(decimal_string(buy_orders).as_str()).concat("b orders")
}

} // verus!
