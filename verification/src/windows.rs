//! The state behind the windows of the desktop program: what a window is
//! called, what it holds, and when it closes. Drawing is not done here.

use std::time::Instant;
use vstd::prelude::*;
use crate::book::{sort_by_price, sort_by_price_spec};
use crate::response::{Order, ShortItem};
use crate::shared::OrderType;
use crate::stable::lemma_filter_empty;
use crate::jobs::JobState;
use crate::model::User;
use crate::platinum::Platinum;
use crate::text::{decimal, decimal_string, parse_u64, parse_unsigned};

verus! {

/// A moment of the monotonic clock. Nothing is known of what it holds.
#[verifier::external_type_specification]
#[verifier::external_body]
pub struct ExInstant(Instant);

/// `Instant::now`: the present moment of the monotonic clock. Nothing is
/// claimed of the answer.
#[verifier::external_body]
fn instant_now() -> (now: Instant) {
    Instant::now()
}

/// `Instant::clone`: a copy of the moment. Nothing is claimed of it.
pub assume_specification[ <Instant as Clone>::clone ](instant: &Instant) -> (copy: Instant)
;

/// A note for the user: who says it, what is said, and when.
#[derive(Clone, Debug)]
pub struct Notification {
    pub timestamp: Instant,
    pub source: String,
    pub message: String,
}

impl Notification {
    /// A note from `source` that says `message`, made at `moment`.
    pub fn at(source: &str, message: &str, moment: Instant) -> (note: Notification)
        ensures
            note.source@ == source@,
            note.message@ == message@,
            note.timestamp == moment,
    {
        Notification {
            timestamp: moment,
            source: String::from_str(source),
            message: String::from_str(message),
        }
    }

    /// A note from `source` that says `message`, made at the moment that the
    /// clock shows now.
    pub fn new(source: &str, message: &str) -> (note: Notification)
        ensures
            note.source@ == source@,
            note.message@ == message@,
    {
        Notification::at(source, message, instant_now())
    }
}

/// The latest of `notes`, if there is one.
pub fn latest_notification(notes: &Vec<Notification>) -> (latest: Option<&Notification>)
    ensures
        notes@.len() == 0 ==> latest is None,
        notes@.len() > 0 ==> latest == Some(&notes@[notes@.len() - 1]),
{
    if notes.len() == 0 {
        None
    } else {
        Some(&notes[notes.len() - 1])
    }
}

/// A window that tells of an error until the user acknowledges it.
#[derive(Clone, Debug, PartialEq)]
pub struct ErrorPopup {
    title: String,
    message: String,
    ok: bool,
}

impl ErrorPopup {
    pub closed spec fn title_spec(&self) -> Seq<char> {
        self.title@
    }

    pub closed spec fn message_spec(&self) -> Seq<char> {
        self.message@
    }

    /// Whether the user has acknowledged the error.
    pub closed spec fn acknowledged(&self) -> bool {
        self.ok
    }

    /// A window with the given title and message, not yet acknowledged.
    pub fn new(title: &str, message: &str) -> (popup: ErrorPopup)
        ensures
            popup.title_spec() == title@,
            popup.message_spec() == message@,
            !popup.acknowledged(),
    {
        ErrorPopup { title: String::from_str(title), message: String::from_str(message), ok: false }
    }

    pub fn window_title(&self) -> (title: String)
        ensures
            title@ == self.title_spec(),
    {
        self.title.clone()
    }

    pub fn message(&self) -> (message: &String)
        ensures
            message@ == self.message_spec(),
    {
        &self.message
    }

    pub fn show_close_button(&self) -> (shown: bool)
        ensures
            shown,
    {
        true
    }

    /// Records that the user pressed the button.
    pub fn acknowledge(&mut self)
        ensures
            final(self).acknowledged(),
            final(self).title_spec() == old(self).title_spec(),
            final(self).message_spec() == old(self).message_spec(),
    {
        self.ok = true;
    }

    /// The window closes once the error is acknowledged.
    pub fn should_close(&self) -> (close: bool)
        ensures
            close == self.acknowledged(),
    {
        self.ok
    }
}

/// The price typed into the window is no whole number of platinum.
#[derive(Clone, Copy, Debug, PartialEq, Eq, Structural)]
pub struct InvalidPrice;

/// The window in which an order for an item is put together.
#[derive(Clone, Debug, PartialEq)]
pub struct PlaceOrderPopup {
    item: ShortItem,
    kind: OrderType,
    price_text: String,
}

/// The buy orders.
pub open spec fn buying() -> spec_fn(Order) -> bool {
    |o: Order| o.order_type == OrderType::Buy
}

/// The sell orders.
pub open spec fn selling() -> spec_fn(Order) -> bool {
    |o: Order| o.order_type == OrderType::Sell
}

impl PlaceOrderPopup {
    pub closed spec fn item_spec(&self) -> ShortItem {
        self.item
    }

    pub closed spec fn kind_spec(&self) -> OrderType {
        self.kind
    }

    pub closed spec fn price_text_spec(&self) -> Seq<char> {
        self.price_text@
    }

    /// A window for an order of the kind `kind` for `item`, with no price
    /// typed yet.
    pub fn new(item: ShortItem, kind: OrderType) -> (popup: PlaceOrderPopup)
        ensures
            popup.item_spec() == item,
            popup.kind_spec() == kind,
            popup.price_text_spec() == Seq::<char>::empty(),
    {
        PlaceOrderPopup { item, kind, price_text: String::new() }
    }

    pub fn item(&self) -> (item: &ShortItem)
        ensures
            *item == self.item_spec(),
    {
        &self.item
    }

    pub fn kind(&self) -> (kind: OrderType)
        ensures
            kind == self.kind_spec(),
    {
        self.kind
    }

    pub fn price_text(&self) -> (text: &String)
        ensures
            text@ == self.price_text_spec(),
    {
        &self.price_text
    }

    /// Takes what the user chose as the kind of order.
    pub fn set_kind(&mut self, kind: OrderType)
        ensures
            final(self).kind_spec() == kind,
            final(self).item_spec() == old(self).item_spec(),
            final(self).price_text_spec() == old(self).price_text_spec(),
    {
        self.kind = kind;
    }

    /// Takes what the user typed as the price.
    pub fn set_price_text(&mut self, text: &str)
        ensures
            final(self).price_text_spec() == text@,
            final(self).item_spec() == old(self).item_spec(),
            final(self).kind_spec() == old(self).kind_spec(),
    {
        self.price_text = String::from_str(text);
    }

    pub fn window_title(&self) -> (title: String)
        ensures
            title@ == "Placing order for "@ + self.item_spec().item_name@,
    {
        String::from_str("Placing order for ").concat(self.item.item_name.as_str())
    }

    /// The price that was typed, in whole platinum, or the error where what
    /// was typed is no whole number that fits 64 bits.
    pub fn price(&self) -> (price: Result<u64, InvalidPrice>)
        ensures
            price is Ok <==> parse_unsigned(self.price_text_spec(), u64::MAX as nat) is Some,
            price is Ok ==> price->Ok_0 as nat == parse_unsigned(
                self.price_text_spec(),
                u64::MAX as nat,
            )->Some_0,
    {
        match parse_u64(self.price_text.as_str()) {
            Some(price) => Ok(price),
            None => Err(InvalidPrice),
        }
    }
}

/// The sell orders of `book`, cheapest first.
pub open spec fn sell_side(book: Seq<Order>) -> Seq<Order> {
    sort_by_price_spec(book.filter(selling()))
}

/// The buy orders of `book`, dearest first.
pub open spec fn buy_side(book: Seq<Order>) -> Seq<Order> {
    sort_by_price_spec(book.filter(buying())).reverse()
}

/// The two sides of the order book `book` as the window lists them: the
/// sell orders with the cheapest first, the buy orders with the dearest
/// first.
pub fn split_book(book: &Vec<Order>) -> (sides: (Vec<Order>, Vec<Order>))
    ensures
        sides.0@ == sell_side(book@),
        sides.1@ == buy_side(book@),
{
    let mut sells: Vec<Order> = Vec::new();
    let mut buys: Vec<Order> = Vec::new();
    let mut i: usize = 0;
    proof {
        lemma_filter_empty(selling());
        lemma_filter_empty(buying());
        assert(book@.take(0) =~= Seq::<Order>::empty());
    }
    while i < book.len()
        invariant
            i <= book.len(),
            sells@ == book@.take(i as int).filter(selling()),
            buys@ == book@.take(i as int).filter(buying()),
        decreases book.len() - i,
    {
        proof {
            book@.lemma_take_succ_push(i as int);
            book@.take(i as int).lemma_filter_push(book@[i as int], selling());
            book@.take(i as int).lemma_filter_push(book@[i as int], buying());
        }
        match book[i].order_type {
            OrderType::Buy => buys.push(book[i].clone()),
            OrderType::Sell => sells.push(book[i].clone()),
        }
        i += 1;
    }
    proof {
        book@.lemma_take_len();
    }
    sort_by_price(&mut sells);
    sort_by_price(&mut buys);
    let mut dearest_first: Vec<Order> = Vec::new();
    let mut n: usize = buys.len();
    while n > 0
        invariant
            n <= buys.len(),
            dearest_first@.len() == buys.len() - n,
            forall|j: int|
                0 <= j < dearest_first@.len() ==> #[trigger] dearest_first@[j] == buys@[buys@.len()
                    - 1 - j],
        decreases n,
    {
        n -= 1;
        dearest_first.push(buys[n].clone());
    }
    assert(dearest_first@ =~= buys@.reverse());
    (sells, dearest_first)
}

/// How many rows the window needs to list both sides of a book next to
/// each other.
pub fn book_rows(sells: usize, buys: usize) -> (rows: usize)
    ensures
        rows >= sells,
        rows >= buys,
        rows == sells || rows == buys,
{
    if sells >= buys {
        sells
    } else {
        buys
    }
}

/// The window of the inventory, with what the user searches for.
#[derive(Clone, Debug, PartialEq)]
pub struct InventoryApp {
    pub search_field: String,
}

impl InventoryApp {
    pub fn window_title(&self) -> (title: String)
        ensures
            title@ == "Inventory"@,
    {
        String::from_str("Inventory")
    }
}

/// A window with nothing in it.
#[derive(Clone, Copy, Debug, PartialEq, Eq, Structural)]
pub struct TestApp {}

impl TestApp {
    pub fn window_title(&self) -> (title: String)
        ensures
            title@ == "Test window"@,
    {
        String::from_str("Test window")
    }
}

/// What a spinner window does next.
#[derive(Clone, Copy, Debug, PartialEq, Eq, Structural)]
pub enum SpinnerStep {
    /// The job is running, or its end is still being shown: stay open.
    Stay,
    /// The job has just ended: show that it is over, from now on.
    ShowFinished,
    /// Close.
    Close,
}

/// What a spinner window does. `job_pending` says whether its job is still
/// running; `finished_for` is the time in milliseconds for which the window
/// has been showing that the job is over, if it is showing that; and
/// `show_for` is the time in milliseconds for which it is to show it.
pub open spec fn spinner_step_spec(job_pending: bool, finished_for: Option<u64>, show_for: u64) -> SpinnerStep {
    match finished_for {
        Some(elapsed) => if elapsed < show_for {
            SpinnerStep::Stay
        } else {
            SpinnerStep::Close
        },
        None => if job_pending {
            SpinnerStep::Stay
        } else if show_for == 0 {
            SpinnerStep::Close
        } else {
            SpinnerStep::ShowFinished
        },
    }
}

/// What a spinner window does next, as `spinner_step_spec` says.
pub fn spinner_step(job_pending: bool, finished_for: Option<u64>, show_for: u64) -> (step:
    SpinnerStep)
    ensures
        step == spinner_step_spec(job_pending, finished_for, show_for),
{
    match finished_for {
        Some(elapsed) => if elapsed < show_for {
            SpinnerStep::Stay
        } else {
            SpinnerStep::Close
        },
        None => if job_pending {
            SpinnerStep::Stay
        } else if show_for == 0 {
            SpinnerStep::Close
        } else {
            SpinnerStep::ShowFinished
        },
    }
}

/// What the sign-in window shows.
#[derive(Debug)]
pub enum AuthStep {
    /// The form, with `error` above it where the last attempt failed.
    Form { error: Option<String> },
    /// That the sign-in is under way.
    Waiting,
    /// Nothing more: `user` is signed in and the window closes.
    SignedIn { user: User },
}

/// What the sign-in window shows while the sign-in stands at `state`.
pub fn auth_step(state: &JobState<User>) -> (step: AuthStep)
    ensures
        *state is Idle ==> step == (AuthStep::Form { error: None }),
        *state is Pending ==> step is Waiting,
        *state matches JobState::Done(Ok(user)) ==> step == (AuthStep::SignedIn { user }),
        *state matches JobState::Done(Err(reason)) ==> step matches AuthStep::Form {
            error: Some(text),
        } && text@ == "Authentication error: "@ + reason@,
{
    match state {
        JobState::Idle => AuthStep::Form { error: None },
        JobState::Pending => AuthStep::Waiting,
        JobState::Done(Ok(user)) => AuthStep::SignedIn { user: user.clone() },
        JobState::Done(Err(reason)) => AuthStep::Form {
            error: Some(String::from_str("Authentication error: ").concat(reason.as_str())),
        },
    }
}

/// The line that lists an order of the account: the side, the name of the
/// item, the price rounded to whole platinum, and the identifier of the
/// item. `None` where the rounded price is more than 64 bits hold.
pub fn order_row(side: &str, item_name: &str, price: Platinum, item_id: &str) -> (row: Option<
    String,
>)
    ensures
        price.rounded_spec() <= u64::MAX ==> row is Some && row->Some_0@ == side@ + item_name@
            + " ["@ + decimal(price.rounded_spec()) + " platinum] [ID "@ + item_id@ + "]"@,
        price.rounded_spec() > u64::MAX ==> row is None,
{
    match price.rounded() {
        Some(whole) => Some(
            String::from_str(side).concat(item_name).concat(" [").concat(
                decimal_string(whole).as_str(),
            ).concat(" platinum] [ID ").concat(item_id).concat("]"),
        ),
        None => None,
    }
}

/// What the live view says of the orders it has seen.
pub fn live_view_label(buy_orders: u64, sell_orders: u64) -> (label: String)
    ensures
        label@ == decimal(buy_orders as nat) + " buy/"@ + decimal(sell_orders as nat)
            + " sell orders"@,
{
    decimal_string(buy_orders).concat(" buy/").concat(decimal_string(sell_orders).as_str()).concat(
        " sell orders",
    )
}

} // verus!
