//! What the marketplace answers: accounts, items, listings.

use vstd::prelude::*;
use crate::platinum::Platinum;
use crate::shared::{OrderType, Platform};
use crate::traits::{ItemID, ItemUrl, OrderID};

verus! {

#[derive(Clone, Debug, PartialEq)]
pub struct SigninWrapper {
    pub user: Signin,
}

/// The account that a sign-in answers with.
#[derive(Clone, Debug, PartialEq)]
pub struct Signin {
    pub id: String,
    pub anonymous: bool,
    pub verification: bool,
    pub ingame_name: String,
    pub check_code: String,
    pub role: String,
    pub patreon_profile: Option<SigninPatreonProfile>,
    pub platform: Platform,
    pub region: String,
    pub banned: bool,
    pub ban_reason: Option<String>,
    pub avatar: Option<String>,
    pub background: Option<String>,
    pub linked_accounts: SigninLinkedAccounts,
    pub has_mail: bool,
    pub written_reviews: u64,
    pub unread_messages: u64,
}

#[derive(Clone, Debug, PartialEq)]
pub struct SigninPatreonProfile {
    pub patreon_founder: bool,
    pub subscription: bool,
    pub patreon_badge: String,
}

#[derive(Clone, Copy, Debug, PartialEq, Eq, Structural)]
pub struct SigninLinkedAccounts {
    pub steam_profile: bool,
    pub patreon_profile: bool,
    pub xbox_profile: bool,
    pub discord_profile: bool,
}

/// The envelope of every answer.
#[derive(Clone, Debug, PartialEq)]
pub struct ResponseWrapper<T> {
    pub payload: T,
}

#[derive(Clone, Debug, PartialEq)]
pub struct Items {
    pub items: Vec<ShortItem>,
}

/// An item as the catalogue lists it.
#[derive(Debug, PartialEq)]
pub struct ShortItem {
    pub url_name: String,
    pub thumb: String,
    pub id: String,
    pub item_name: String,
}

impl Clone for ShortItem {
    fn clone(&self) -> (res: Self)
        ensures
            res == *self,
    {
        ShortItem {
            url_name: self.url_name.clone(),
            thumb: self.thumb.clone(),
            id: self.id.clone(),
            item_name: self.item_name.clone(),
        }
    }
}

impl ItemUrl for ShortItem {
    open spec fn item_url_spec(&self) -> Seq<char> {
        self.url_name@
    }

    fn item_url(&self) -> (url: &str) {
        self.url_name.as_str()
    }
}

impl ItemID for ShortItem {
    open spec fn item_id_spec(&self) -> Seq<char> {
        self.id@
    }

    fn item_id(&self) -> (id: &str) {
        self.id.as_str()
    }
}

#[derive(Clone, Debug, PartialEq)]
pub struct LongItem {
    pub id: String,
    pub items_in_set: Vec<LongSubItem>,
}

#[derive(Clone, Debug, PartialEq)]
pub struct LongSubItem {
    pub id: String,
    pub url_name: String,
    pub icon: String,
    pub thumb: String,
    pub sub_icon: String,
    pub mod_max_rank: u8,
    pub subtypes: Vec<String>,
    pub tags: Vec<String>,
    pub cyan_stars: u16,
    pub amber_stars: u16,
    pub ducats: u16,
    pub set_root: bool,
    pub mastery_rank: u8,
    pub rarity: String,
    pub trading_tax: u32,
    pub en: LongSubItemLocale,
    pub ru: LongSubItemLocale,
    pub ko: LongSubItemLocale,
    pub fr: LongSubItemLocale,
    pub sv: LongSubItemLocale,
    pub de: LongSubItemLocale,
    pub zh_hant: LongSubItemLocale,
    pub zh_hans: LongSubItemLocale,
    pub pt: LongSubItemLocale,
    pub es: LongSubItemLocale,
    pub pl: LongSubItemLocale,
}

impl ItemUrl for LongSubItem {
    open spec fn item_url_spec(&self) -> Seq<char> {
        self.url_name@
    }

    fn item_url(&self) -> (url: &str) {
        self.url_name.as_str()
    }
}

impl ItemID for LongSubItem {
    open spec fn item_id_spec(&self) -> Seq<char> {
        self.id@
    }

    fn item_id(&self) -> (id: &str) {
        self.id.as_str()
    }
}

#[derive(Clone, Debug, PartialEq)]
pub struct LongSubItemLocale {
    pub item_name: String,
    pub description: String,
    pub wiki_link: String,
    pub drop: Vec<ItemDrop>,
}

#[derive(Clone, Debug, PartialEq)]
pub struct ItemDrop {
    pub name: String,
    pub link: String,
}

impl ItemUrl for ItemDrop {
    open spec fn item_url_spec(&self) -> Seq<char> {
        self.link@
    }

    fn item_url(&self) -> (url: &str) {
        self.link.as_str()
    }
}

#[derive(Clone, Debug, PartialEq)]
pub struct Orders {
    pub orders: Vec<Order>,
}

/// A listing in the order book of one item.
#[derive(Debug, PartialEq)]
pub struct Order {
    pub quantity: u16,
    pub user: OrderUser,
    pub visible: bool,
    pub last_update: String,
    pub creation_date: String,
    pub platinum: Platinum,
    pub platform: Platform,
    pub order_type: OrderType,
    pub region: String,
    pub id: String,
}

impl Clone for Order {
    fn clone(&self) -> (res: Self)
        ensures
            res == *self,
    {
        Order {
            quantity: self.quantity,
            user: self.user.clone(),
            visible: self.visible,
            last_update: self.last_update.clone(),
            creation_date: self.creation_date.clone(),
            platinum: self.platinum,
            platform: self.platform,
            order_type: self.order_type,
            region: self.region.clone(),
            id: self.id.clone(),
        }
    }
}

impl OrderID for Order {
    open spec fn order_id_spec(&self) -> Seq<char> {
        self.id@
    }

    fn order_id(&self) -> (id: &str) {
        self.id.as_str()
    }
}

/// The account behind a listing. `status` is what the account is doing now;
/// only `"ingame"` means that it can trade at once.
#[derive(Debug, PartialEq)]
pub struct OrderUser {
    pub reputation: u16,
    pub region: String,
    pub ingame_name: String,
    pub status: String,
    pub id: String,
}

impl Clone for OrderUser {
    fn clone(&self) -> (res: Self)
        ensures
            res == *self,
    {
        OrderUser {
            reputation: self.reputation,
            region: self.region.clone(),
            ingame_name: self.ingame_name.clone(),
            status: self.status.clone(),
            id: self.id.clone(),
        }
    }
}

/// Two series of market statistics, over the last 48 hours and the last 90 days.
#[derive(Clone, Debug, PartialEq)]
pub struct MarketStatistics<T> {
    pub _48_hours: Vec<T>,
    pub _90_days: Vec<T>,
}

/// What placing an order answers with.
#[derive(Clone, Debug, PartialEq)]
pub struct ProfileOrderResponseWrapper {
    pub order: ProfileOrderResponse,
}

#[derive(Clone, Debug, PartialEq)]
pub struct ProfileOrderResponse {
    pub id: String,
    pub platinum: Platinum,
    pub quantity: u16,
    pub order_type: OrderType,
    pub platform: Platform,
    pub region: String,
    pub creation_date: String,
    pub last_update: String,
    pub visible: bool,
}

impl OrderID for ProfileOrderResponse {
    open spec fn order_id_spec(&self) -> Seq<char> {
        self.id@
    }

    fn order_id(&self) -> (id: &str) {
        self.id.as_str()
    }
}

#[derive(Clone, Debug, PartialEq)]
pub struct ProfileOrderItem {
    pub id: String,
    pub url_name: String,
    pub icon: String,
    pub thumb: String,
    pub sub_icon: String,
    pub mod_max_rank: u8,
    pub subtypes: Vec<String>,
    pub tags: Vec<String>,
    pub cyan_stars: u16,
    pub amber_stars: u16,
    pub ducats: u16,
    pub en: ShortItemLocale,
    pub ru: ShortItemLocale,
    pub ko: ShortItemLocale,
    pub fr: ShortItemLocale,
    pub sv: ShortItemLocale,
    pub de: ShortItemLocale,
    pub zh_hant: ShortItemLocale,
    pub zh_hans: ShortItemLocale,
    pub pt: ShortItemLocale,
    pub es: ShortItemLocale,
    pub pl: ShortItemLocale,
}

impl ItemUrl for ProfileOrderItem {
    open spec fn item_url_spec(&self) -> Seq<char> {
        self.url_name@
    }

    fn item_url(&self) -> (url: &str) {
        self.url_name.as_str()
    }
}

impl ItemID for ProfileOrderItem {
    open spec fn item_id_spec(&self) -> Seq<char> {
        self.id@
    }

    fn item_id(&self) -> (id: &str) {
        self.id.as_str()
    }
}

/// The name of an item in one language.
#[derive(Clone, Debug, PartialEq)]
pub struct ShortItemLocale {
    pub item_name: String,
}

/// The listings of the signed-in account, by side.
#[derive(Clone, Debug, PartialEq)]
pub struct ExistingProfileOrders {
    pub sell_orders: Vec<ExistingProfileOrder>,
    pub buy_orders: Vec<ExistingProfileOrder>,
}

/// A listing of the signed-in account. `id` identifies the order.
#[derive(Clone, Debug, PartialEq)]
pub struct ExistingProfileOrder {
    pub quantity: u16,
    pub last_update: String,
    pub platinum: Platinum,
    pub order_type: OrderType,
    pub region: String,
    pub item: ExistingProfileOrderItem,
    pub id: String,
    pub platform: Platform,
    pub creation_date: String,
    pub visible: bool,
}

impl OrderID for ExistingProfileOrder {
    open spec fn order_id_spec(&self) -> Seq<char> {
        self.id@
    }

    fn order_id(&self) -> (id: &str) {
        self.id.as_str()
    }
}

#[derive(Clone, Debug, PartialEq)]
pub struct ExistingProfileOrderItem {
    pub quantity_for_set: Option<u16>,
    pub ducats: Option<u16>,
    pub id: String,
    pub url_name: String,
    pub icon: String,
    pub thumb: String,
    pub icon_format: String,
    pub tags: Vec<String>,
    pub sub_icon: Option<String>,
    pub en: ShortItemLocale,
    pub ru: ShortItemLocale,
    pub ko: ShortItemLocale,
    pub fr: ShortItemLocale,
    pub sv: ShortItemLocale,
    pub de: ShortItemLocale,
    pub zh_hant: ShortItemLocale,
    pub zh_hans: ShortItemLocale,
    pub pt: ShortItemLocale,
    pub es: ShortItemLocale,
    pub pl: ShortItemLocale,
}

impl ItemUrl for ExistingProfileOrderItem {
    open spec fn item_url_spec(&self) -> Seq<char> {
        self.url_name@
    }

    fn item_url(&self) -> (url: &str) {
        self.url_name.as_str()
    }
}

impl ItemID for ExistingProfileOrderItem {
    open spec fn item_id_spec(&self) -> Seq<char> {
        self.id@
    }

    fn item_id(&self) -> (id: &str) {
        self.id.as_str()
    }
}

/// What removing an order answers with.
#[derive(Clone, Debug, PartialEq)]
pub struct RemoveOrderResponse {
    pub order_id: String,
}

impl OrderID for RemoveOrderResponse {
    open spec fn order_id_spec(&self) -> Seq<char> {
        self.order_id@
    }

    fn order_id(&self) -> (id: &str) {
        self.order_id.as_str()
    }
}

} // verus!
