//! The live feed of the marketplace: the messages that go over it, and the
//! watch for orders that pay well in ducats.

use vstd::prelude::*;
use crate::platinum::{fraction_steps, Platinum};
use crate::response::{ExistingProfileOrderItem, OrderUser};
use crate::shared::{OrderType, Platform};
use crate::text::{remove_all, without_all};

verus! {

/// The address of the live feed.
pub const WS_URL: &'static str = "wss://warframe.market/socket?platform=pc";

/// The least number of ducats per platinum that the watch reports.
pub const DUCATS_PER_PLATINUM_WANTED: u16 = 10;

/// Whether an account is there to trade.
#[derive(Clone, Copy, Debug, PartialEq, Eq, Structural)]
pub enum Status {
    Online,
    Offline,
    InGame,
}

/// How many users the marketplace counts right now.
#[derive(Clone, Copy, Debug, PartialEq, Eq, Structural)]
pub struct OnlineCount {
    pub total_users: u32,
    pub registered_users: u32,
}

/// An order as the live feed announces it.
#[derive(Clone, Debug, PartialEq)]
pub struct WebsocketOrder {
    pub id: String,
    pub quantity: u16,
    pub user: OrderUser,
    pub platform: Platform,
    pub order_type: OrderType,
    pub item: ExistingProfileOrderItem,
    pub creation_date: String,
    pub visible: bool,
    pub last_update: String,
    pub platinum: Platinum,
    pub region: String,
}

/// What a message of the live feed says.
#[derive(Debug, PartialEq)]
pub enum WebsocketMessagePayload {
    /// Sent both ways: the status of the account.
    SetStatus(Status),
    /// Sent to the marketplace: announce new orders from now on.
    SubscribeMostRecent,
    /// Sent by the marketplace.
    OnlineCount(OnlineCount),
    /// Sent by the marketplace: an order has just been placed.
    NewOrder { order: WebsocketOrder },
    /// Sent by the marketplace.
    Error(String),
}

/// A message of the live feed with its type spelled out.
#[derive(Debug, PartialEq)]
pub struct WebsocketMessage {
    pub message_type: String,
    pub payload: WebsocketMessagePayload,
}

impl WebsocketMessagePayload {
    /// The type of the message, as the feed spells it.
    pub open spec fn ws_type_spec(&self) -> Seq<char> {
        match self {
            WebsocketMessagePayload::SetStatus(_) => "@WS/USER/SET_STATUS"@,
            WebsocketMessagePayload::SubscribeMostRecent => "@WS/SUBSCRIBE/MOST_RECENT"@,
            WebsocketMessagePayload::OnlineCount(_) => "@WS/MESSAGE/ONLINE_COUNT"@,
            WebsocketMessagePayload::NewOrder { .. } => "@WS/SUBSCRIPTIONS/MOST_RECENT/NEW_ORDER"@,
            WebsocketMessagePayload::Error(_) => "@WS/ERROR"@,
        }
    }

    /// The type of the message, as the feed spells it.
    pub fn get_ws_type(&self) -> (name: String)
        ensures
            name@ == self.ws_type_spec(),
    {
        let name = match self {
            WebsocketMessagePayload::SetStatus(_) => "@WS/USER/SET_STATUS",
            WebsocketMessagePayload::SubscribeMostRecent => "@WS/SUBSCRIBE/MOST_RECENT",
            WebsocketMessagePayload::OnlineCount(_) => "@WS/MESSAGE/ONLINE_COUNT",
            WebsocketMessagePayload::NewOrder { .. } => "@WS/SUBSCRIPTIONS/MOST_RECENT/NEW_ORDER",
            WebsocketMessagePayload::Error(_) => "@WS/ERROR",
        };
        String::from_str(name)
    }

    /// Whether the message carries nothing besides its type: true of the
    /// request to subscribe, and of no other.
    pub fn is_bare(&self) -> (bare: bool)
        ensures
            bare == (*self is SubscribeMostRecent),
    {
        match self {
            WebsocketMessagePayload::SubscribeMostRecent => true,
            _ => false,
        }
    }

    /// The message with its type spelled out.
    pub fn into_message(self) -> (message: WebsocketMessage)
        ensures
            message.payload == self,
            message.message_type@ == self.ws_type_spec(),
    {
        let message_type = self.get_ws_type();
        WebsocketMessage { message_type, payload: self }
    }
}

/// The cookie that signs the feed in with the token `jwt_token`: the token
/// without the word `JWT ` that may stand in it, behind `JWT=`.
pub fn session_cookie(jwt_token: &str) -> (cookie: String)
    ensures
        cookie@ == "JWT="@ + without_all(jwt_token@, "JWT "@),
{
    let bare = remove_all(jwt_token, "JWT ");
    String::from_str("JWT=").concat(bare.as_str())
}

/// The status that `events` reports of the account: that of the first
/// message that sets one.
pub open spec fn reported_status(events: Seq<WebsocketMessagePayload>) -> Option<Status>
    decreases events.len(),
{
    if events.len() == 0 {
        None
    } else {
        match events[0] {
            WebsocketMessagePayload::SetStatus(status) => Some(status),
            _ => reported_status(events.skip(1)),
        }
    }
}

/// The status of the account as the messages `events` report it, or `None`
/// where none of them does.
pub fn latest_status(events: &Vec<WebsocketMessagePayload>) -> (status: Option<Status>)
    ensures
        status == reported_status(events@),
{
    let mut i: usize = 0;
    proof {
        assert(events@.skip(0) =~= events@);
    }
    while i < events.len()
        invariant
            i <= events.len(),
            reported_status(events@) == reported_status(events@.skip(i as int)),
        decreases events.len() - i,
    {
        proof {
            assert(events@.skip(i as int).skip(1) =~= events@.skip(i + 1));
        }
        match &events[i] {
            WebsocketMessagePayload::SetStatus(status) => {
                return Some(*status);
            },
            _ => {},
        }
        i += 1;
    }
    None
}

/// How the status of the account is shown.
pub fn status_label(status: Option<Status>) -> (label: &'static str)
    ensures
        label@ == match status {
            Some(Status::InGame) => "In-game"@,
            Some(Status::Online) => "Online"@,
            Some(Status::Offline) => "Offline"@,
            None => "[Unknown]"@,
        },
{
    match status {
        Some(Status::InGame) => "In-game",
        Some(Status::Online) => "Online",
        Some(Status::Offline) => "Offline",
        None => "[Unknown]",
    }
}

/// Whether `order` pays at least `wanted` ducats for each platinum: a sell
/// order for an item that is worth `ducats` ducats, at a price of which
/// `wanted` times over is no more than `ducats`. An item worth nothing,
/// offered for nothing, does not count.
pub open spec fn pays_in_ducats(order: WebsocketOrder, wanted: u16) -> bool {
    &&& order.order_type == OrderType::Sell
    &&& order.item.ducats matches Some(ducats)
    &&& wanted as nat * order.platinum.scaled() <= ducats as nat * fraction_steps()
    &&& !(ducats == 0 && order.platinum.scaled() == 0)
}

/// Whether `order` pays at least `wanted` ducats for each platinum.
pub fn is_ducat_snipe(order: &WebsocketOrder, wanted: u16) -> (snipe: bool)
    ensures
        snipe == pays_in_ducats(*order, wanted),
{
    match order.order_type {
        OrderType::Buy => false,
        OrderType::Sell => match order.item.ducats {
            None => false,
            Some(ducats) => {
                let units = order.platinum.units;
                let fraction = order.platinum.fraction;
                if ducats == 0 && units == 0 && fraction == 0 {
                    return false;
                }
                let steps: u128 = 0x1_0000_0000_0000_0000;
                assert(units as nat * fraction_steps() + fraction as nat <= u128::MAX
                    && ducats as nat * fraction_steps() <= u128::MAX) by (nonlinear_arith)
                    requires
                        units <= u64::MAX,
                        fraction <= u64::MAX,
                        ducats <= u16::MAX,
                        fraction_steps() == 0x1_0000_0000_0000_0000,
                ;
                let price: u128 = units as u128 * steps + fraction as u128;
                let worth: u128 = ducats as u128 * steps;
                match price.checked_mul(wanted as u128) {
                    Some(asked) => {
                        assert(asked == wanted as nat * order.platinum.scaled()) by (nonlinear_arith)
                            requires
                                asked == price * wanted,
                                price == order.platinum.scaled(),
                        ;
                        asked <= worth
                    },
                    None => {
                        assert(wanted as nat * order.platinum.scaled() > u128::MAX) by (nonlinear_arith)
                            requires
                                price * wanted > u128::MAX,
                                price == order.platinum.scaled(),
                        ;
                        false
                    },
                }
            },
        },
    }
}

/// Whether `event` announces an order that pays at least `wanted` ducats
/// for each platinum.
pub open spec fn announces_snipe(event: WebsocketMessagePayload, wanted: u16) -> bool {
    event matches WebsocketMessagePayload::NewOrder { order } && pays_in_ducats(order, wanted)
}

/// The places, among the first `n` of `events`, of the messages that
/// announce an order that pays at least `wanted` ducats for each platinum,
/// in ascending order.
pub open spec fn snipes_among(events: Seq<WebsocketMessagePayload>, wanted: u16, n: nat) -> Seq<
    usize,
>
    decreases n,
{
    if n == 0 {
        Seq::empty()
    } else {
        let before = snipes_among(events, wanted, (n - 1) as nat);
        if announces_snipe(events[n - 1], wanted) {
            before.push((n - 1) as usize)
        } else {
            before
        }
    }
}

/// The places in `events` of the messages that announce an order that pays
/// at least `wanted` ducats for each platinum, in the order in which they
/// came.
pub fn ducat_snipes(events: &Vec<WebsocketMessagePayload>, wanted: u16) -> (snipes: Vec<usize>)
    ensures
        snipes@ == snipes_among(events@, wanted, events@.len()),
{
    let mut snipes: Vec<usize> = Vec::new();
    let mut i: usize = 0;
    while i < events.len()
        invariant
            i <= events.len(),
            snipes@ == snipes_among(events@, wanted, i as nat),
        decreases events.len() - i,
    {
        let hit = match &events[i] {
            WebsocketMessagePayload::NewOrder { order } => is_ducat_snipe(order, wanted),
            _ => false,
        };
        if hit {
            snipes.push(i);
        }
        i += 1;
    }
    snipes
}

/// The whisper that opens the trade for `order`, with its price spelled
/// `price` and signed `signature`.
pub fn whisper(order: &WebsocketOrder, price: &str, signature: &str) -> (text: String)
    ensures
        text@ == "/w "@ + order.user.ingame_name@ + " Hi! I want to buy: \""@
            + order.item.en.item_name@ + "\" for "@ + price@ + " platinum. ("@ + signature@
            + ")"@,
{
    let mut text = String::from_str("/w ");
    text.append(order.user.ingame_name.as_str());
    text.append(" Hi! I want to buy: \"");
    text.append(order.item.en.item_name.as_str());
    text.append("\" for ");
    text.append(price);
    text.append(" platinum. (");
    text.append(signature);
    text.append(")");
    text
}

} // verus!
