//! What the program remembers between runs: the credentials of the account
//! and the catalogue of items, with the time at which the catalogue was
//! fetched.

use vstd::prelude::*;
use crate::model::User;
use crate::response::ShortItem;
use crate::text::{contains_text, is_infix};

verus! {

/// The age in seconds beyond which the catalogue of items is fetched again:
/// one day.
pub const ITEMS_CACHE_EXPIRY_S: u64 = 86400;

/// The stored configuration.
#[derive(Clone, Debug, PartialEq)]
pub struct Config {
    jwt_token: String,
    items_timestamp: u64,
    username: String,
    pub items: Vec<ShortItem>,
}

impl Config {
    pub closed spec fn jwt_token_spec(&self) -> Seq<char> {
        self.jwt_token@
    }

    pub closed spec fn username_spec(&self) -> Seq<char> {
        self.username@
    }

    /// The catalogue of items.
    pub closed spec fn items_spec(&self) -> Seq<ShortItem> {
        self.items@
    }

    /// The time, in seconds since 1970, at which the items were fetched.
    pub closed spec fn items_timestamp_spec(&self) -> u64 {
        self.items_timestamp
    }

    /// A configuration for the account with the given token and name, with
    /// the catalogue `items` as fetched at `items_timestamp`.
    pub fn new(
        jwt_token: String,
        username: String,
        items: Vec<ShortItem>,
        items_timestamp: u64,
    ) -> (config: Config)
        ensures
            config.jwt_token_spec() == jwt_token@,
            config.username_spec() == username@,
            config.items_timestamp_spec() == items_timestamp,
            config.items_spec() == items@,
    {
        Config { jwt_token, items_timestamp, username, items }
    }

    /// The account that the configuration is for.
    pub fn user(&self) -> (user: User)
        ensures
            user.jwt_token_spec() == self.jwt_token_spec(),
            user.username_spec() == self.username_spec(),
    {
        User::_from_jwt_token(self.jwt_token.as_str(), self.username.as_str())
    }

    pub fn jwt_token(&self) -> (token: &String)
        ensures
            token@ == self.jwt_token_spec(),
    {
        &self.jwt_token
    }

    pub fn username(&self) -> (name: &String)
        ensures
            name@ == self.username_spec(),
    {
        &self.username
    }

    pub fn items(&self) -> (items: &Vec<ShortItem>)
        ensures
            items@ == self.items_spec(),
    {
        &self.items
    }

    pub fn items_timestamp(&self) -> (timestamp: u64)
        ensures
            timestamp == self.items_timestamp_spec(),
    {
        self.items_timestamp
    }

    /// Whether the catalogue has to be fetched again at the time `now`: it
    /// is more than a day old.
    pub fn items_are_stale(&self, now: u64) -> (stale: bool)
        requires
            self.items_timestamp_spec() <= now,
        ensures
            stale == (now - self.items_timestamp_spec() > ITEMS_CACHE_EXPIRY_S),
    {
        now - self.items_timestamp > ITEMS_CACHE_EXPIRY_S
    }

    /// Puts the catalogue `items`, fetched at the time `now`, in place of
    /// the old one.
    pub fn refresh_items(&mut self, items: Vec<ShortItem>, now: u64)
        ensures
            final(self).items_spec() == items@,
            final(self).items_timestamp_spec() == now,
            final(self).jwt_token_spec() == old(self).jwt_token_spec(),
            final(self).username_spec() == old(self).username_spec(),
    {
        self.items = items;
        self.items_timestamp = now;
    }
}

/// Whether an item of this name is a part of a warframe, which is traded as
/// a blueprint: the name holds `Neuroptics`, `Systems` or `Chassis`.
pub open spec fn is_warframe_part(name: Seq<char>) -> bool {
    is_infix("Neuroptics"@, name) || is_infix("Systems"@, name) || is_infix("Chassis"@, name)
}

/// The name under which an item of the name `name` is traded.
pub open spec fn fixed_name(name: Seq<char>) -> Seq<char> {
    if is_warframe_part(name) {
        name + " blueprint"@
    } else {
        name
    }
}

/// Whether `fixed` is `item` under the name by which it is traded.
pub open spec fn is_fixed(item: ShortItem, fixed: ShortItem) -> bool {
    &&& fixed.item_name@ == fixed_name(item.item_name@)
    &&& fixed.url_name == item.url_name
    &&& fixed.thumb == item.thumb
    &&& fixed.id == item.id
}

/// Gives the parts of warframes among `items` the names under which they
/// are traded: ` blueprint` is put behind each such name.
pub fn fix_items(items: &mut Vec<ShortItem>)
    ensures
        final(items)@.len() == old(items)@.len(),
        forall|i: int|
            0 <= i < old(items)@.len() ==> is_fixed(old(items)@[i], #[trigger] final(items)@[i]),
{
    let mut i: usize = 0;
    while i < items.len()
        invariant
            i <= items.len(),
            items@.len() == old(items)@.len(),
            forall|j: int| 0 <= j < i ==> is_fixed(old(items)@[j], #[trigger] items@[j]),
            forall|j: int| i <= j < items@.len() ==> #[trigger] items@[j] == old(items)@[j],
        decreases items.len() - i,
    {
        let name = items[i].item_name.as_str();
        let part = contains_text(name, "Neuroptics") || contains_text(name, "Systems")
            || contains_text(name, "Chassis");
        if part {
            let mut item = items.remove(i);
            item.item_name.append(" blueprint");
            items.insert(i, item);
        }
        i += 1;
    }
}

} // verus!
