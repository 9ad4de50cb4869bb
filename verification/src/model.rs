//! The signed-in account, and what a caller says to place or to change an
//! order.

use vstd::prelude::*;
use vstd::std_specs::cmp::PartialEqSpecImpl;
use crate::platinum::Platinum;
use crate::request;
use crate::shared::{OrderType, Platform};
use crate::traits::{ItemUrl, OrderID};

verus! {

/// The credentials of a signed-in account.
#[derive(Debug)]
pub struct User {
    jwt_token: String,
    username: String,
}

impl User {
    /// The token that authorises requests.
    pub closed spec fn jwt_token_spec(&self) -> Seq<char> {
        self.jwt_token@
    }

    /// The name of the account in the game.
    pub closed spec fn username_spec(&self) -> Seq<char> {
        self.username@
    }

    /// The account with the given token and name.
    pub fn _from_jwt_token(jwt_token: &str, username: &str) -> (user: User)
        ensures
            user.jwt_token_spec() == jwt_token@,
            user.username_spec() == username@,
    {
        User { jwt_token: String::from_str(jwt_token), username: String::from_str(username) }
    }

    pub fn _jwt_token(&self) -> (token: String)
        ensures
            token@ == self.jwt_token_spec(),
    {
        self.jwt_token.clone()
    }

    pub fn username(&self) -> (name: String)
        ensures
            name@ == self.username_spec(),
    {
        self.username.clone()
    }
}

impl Clone for User {
    fn clone(&self) -> (user: User)
        ensures
            user == *self,
    {
        User { jwt_token: self.jwt_token.clone(), username: self.username.clone() }
    }
}

/// Two accounts are the same when name and token are.
impl PartialEq for User {
    fn eq(&self, other: &User) -> (same: bool) {
        self.username == other.username && self.jwt_token == other.jwt_token
    }
}

impl PartialEqSpecImpl for User {
    open spec fn obeys_eq_spec() -> bool {
        true
    }

    open spec fn eq_spec(&self, other: &User) -> bool {
        self.username_spec() == other.username_spec() && self.jwt_token_spec()
            == other.jwt_token_spec()
    }
}

/// The address under which the marketplace answers.
pub const BASE_URL: &'static str = "https://api.warframe.market/v1";

/// The address of the endpoint `path`.
pub fn endpoint_url(path: &str) -> (url: String)
    ensures
        url@ == BASE_URL@ + path@,
{
    String::from_str(BASE_URL).concat(path)
}

/// The endpoint that signs an account in.
pub fn signin_path() -> (path: &'static str)
    ensures
        path@ == "/auth/signin"@,
{
    "/auth/signin"
}

/// The endpoint of the catalogue of items.
pub fn items_path() -> (path: &'static str)
    ensures
        path@ == "/items"@,
{
    "/items"
}

/// The endpoint on which orders are placed.
pub fn place_order_path() -> (path: &'static str)
    ensures
        path@ == "/profile/orders"@,
{
    "/profile/orders"
}

/// The endpoint of the item `item`.
pub fn item_path<T: ItemUrl>(item: &T) -> (path: String)
    ensures
        path@ == "/items/"@ + item.item_url_spec(),
{
    String::from_str("/items/").concat(item.item_url())
}

/// The endpoint of the order book of the item `item`.
pub fn item_orders_path<T: ItemUrl>(item: &T) -> (path: String)
    ensures
        path@ == "/items/"@ + item.item_url_spec() + "/orders"@,
{
    String::from_str("/items/").concat(item.item_url()).concat("/orders")
}

/// The endpoint of the market statistics of the item `item`.
pub fn item_statistics_path<T: ItemUrl>(item: &T) -> (path: String)
    ensures
        path@ == "/items/"@ + item.item_url_spec() + "/statistics"@,
{
    String::from_str("/items/").concat(item.item_url()).concat("/statistics")
}

/// The endpoint of the order `order` of the signed-in account: the one to
/// update it on and to delete it from.
pub fn order_path<T: OrderID>(order: &T) -> (path: String)
    ensures
        path@ == "/profile/orders/"@ + order.order_id_spec(),
{
    String::from_str("/profile/orders/").concat(order.order_id())
}

/// The endpoint that searches the auctions of rivens for the weapon
/// `weapon`.
pub fn riven_auctions_path(weapon: &str) -> (path: String)
    ensures
        path@ == "/auctions/search?type=riven&weapon_url_name="@ + weapon@,
{
    String::from_str("/auctions/search?type=riven&weapon_url_name=").concat(weapon)
}

impl User {
    /// The endpoint of the orders of this account.
    pub fn orders_path(&self) -> (path: String)
        ensures
            path@ == "/profile/"@ + self.username_spec() + "/orders"@,
    {
        String::from_str("/profile/").concat(self.username.as_str()).concat("/orders")
    }

    /// The endpoint of the auctions of this account.
    pub fn auctions_path(&self) -> (path: String)
        ensures
            path@ == "/profile/"@ + self.username_spec() + "/auctions"@,
    {
        String::from_str("/profile/").concat(self.username.as_str()).concat("/auctions")
    }
}

impl Platform {
    /// The name of the platform, as requests and the sign-in dialogue spell
    /// it.
    pub open spec fn name_spec(self) -> Seq<char> {
        match self {
            Platform::Pc => "pc"@,
            Platform::Xbox => "xbox"@,
            Platform::Ps4 => "ps4"@,
        }
    }

    /// The name of the platform, as requests spell it.
    pub fn name(&self) -> (name: &'static str)
        ensures
            name@ == self.name_spec(),
    {
        match self {
            Platform::Pc => "pc",
            Platform::Xbox => "xbox",
            Platform::Ps4 => "ps4",
        }
    }
}

/// A header of a request: its name and its value.
#[derive(Clone, Debug, PartialEq)]
pub struct Header {
    pub name: String,
    pub value: String,
}

/// Whether `header` has the name `name` and the value `value`.
pub open spec fn header_is(header: Header, name: Seq<char>, value: Seq<char>) -> bool {
    header.name@ == name && header.value@ == value
}

fn header(name: &str, value: &str) -> (header: Header)
    ensures
        header_is(header, name@, value@),
{
    Header { name: String::from_str(name), value: String::from_str(value) }
}

/// The headers of a request that needs no account.
pub fn plain_headers() -> (headers: Vec<Header>)
    ensures
        headers@.len() == 1,
        header_is(headers@[0], "Content-Type"@, "application/json"@),
{
    let mut headers: Vec<Header> = Vec::new();
    headers.push(header("Content-Type", "application/json"));
    headers
}

/// The headers of a request made for the account with the token
/// `jwt_token`.
pub fn authorized_headers(jwt_token: &str) -> (headers: Vec<Header>)
    ensures
        headers@.len() == 2,
        header_is(headers@[0], "authorization"@, jwt_token@),
        header_is(headers@[1], "Content-Type"@, "application/json"@),
{
    let mut headers: Vec<Header> = Vec::new();
    headers.push(header("authorization", jwt_token));
    headers.push(header("Content-Type", "application/json"));
    headers
}

/// The headers of a sign-in on `platform`, with answers in `language`.
pub fn signin_headers(platform: Platform, language: &str) -> (headers: Vec<Header>)
    ensures
        headers@.len() == 4,
        header_is(headers@[0], "Content-Type"@, "application/json; utf-8"@),
        header_is(headers@[1], "Authorization"@, "JWT"@),
        header_is(headers@[2], "platform"@, platform.name_spec()),
        header_is(headers@[3], "language"@, language@),
{
    let mut headers: Vec<Header> = Vec::new();
    headers.push(header("Content-Type", "application/json; utf-8"));
    headers.push(header("Authorization", "JWT"));
    headers.push(header("platform", platform.name()));
    headers.push(header("language", language));
    headers
}

/// The body that signs in with `email` and `password`.
pub fn signin_body(email: &str, password: &str) -> (body: request::Signin)
    ensures
        body.auth_type@ == "header"@,
        body.email@ == email@,
        body.password@ == password@,
{
    request::Signin {
        auth_type: String::from_str("header"),
        email: String::from_str(email),
        password: String::from_str(password),
    }
}

/// A copy of `text`.
fn copy_of(text: &Option<String>) -> (copy: Option<String>)
    ensures
        copy == *text,
{
    match text {
        Some(t) => Some(t.clone()),
        None => None,
    }
}

/// The body that places the order `desc`.
pub fn post_order_body(desc: &PostOrderDescriptor) -> (body: request::ProfileOrder)
    ensures
        body == (request::ProfileOrder {
            item_id: desc.item_id,
            order_type: desc.kind,
            platinum: desc.price,
            quantity: desc.quantity,
            visible: desc.visible,
            rank: desc.rank,
            subtype: desc.subtype,
        }),
{
    request::ProfileOrder {
        item_id: desc.item_id.clone(),
        order_type: desc.kind,
        platinum: desc.price,
        quantity: desc.quantity,
        visible: desc.visible,
        rank: desc.rank,
        subtype: copy_of(&desc.subtype),
    }
}

/// The body that updates the order `order` to what `desc` says.
pub fn update_order_body<T: OrderID>(order: &T, desc: &UpdateOrderDescriptor) -> (body:
    request::UpdateOrder)
    ensures
        body.item_id@ == order.order_id_spec(),
        body.platinum == desc.platinum,
        body.quantity == desc.quantity,
        body.visible == desc.visible,
        body.rank == desc.rank,
        body.subtype == desc.subtype,
{
    request::UpdateOrder {
        item_id: String::from_str(order.order_id()),
        platinum: desc.platinum,
        quantity: desc.quantity,
        visible: desc.visible,
        rank: desc.rank,
        subtype: copy_of(&desc.subtype),
    }
}

/// What to place: an order for `quantity` of the item `item_id` at `price`
/// whole platinum each.
#[derive(Clone, Debug, PartialEq)]
pub struct PostOrderDescriptor {
    pub item_id: String,
    pub price: u64,
    pub kind: OrderType,
    pub visible: bool,
    pub quantity: u16,
    pub rank: Option<u8>,
    pub subtype: Option<String>,
}

/// What an order is to be after an update. The price may have a fraction.
#[derive(Clone, Debug, PartialEq)]
pub struct UpdateOrderDescriptor {
    pub platinum: Platinum,
    pub quantity: u16,
    pub visible: bool,
    pub rank: Option<u8>,
    pub subtype: Option<String>,
}

} // verus!
