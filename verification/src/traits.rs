//! What a value has to offer to be named in a request: the name of an item in
//! a URL, the identifier of an order, the identifier of an item.

use vstd::prelude::*;

verus! {

/// A value that names an item by the last segment of its URL.
pub trait ItemUrl {
    /// The URL name, as a sequence of characters.
    spec fn item_url_spec(&self) -> Seq<char>;

    fn item_url(&self) -> (url: &str)
        ensures
            url@ == self.item_url_spec(),
    ;
}

impl ItemUrl for String {
    open spec fn item_url_spec(&self) -> Seq<char> {
        self@
    }

    fn item_url(&self) -> (url: &str) {
        self.as_str()
    }
}

impl ItemUrl for &str {
    open spec fn item_url_spec(&self) -> Seq<char> {
        self@
    }

    fn item_url(&self) -> (url: &str) {
        self
    }
}

/// A value that identifies an order.
pub trait OrderID {
    /// The identifier, as a sequence of characters.
    spec fn order_id_spec(&self) -> Seq<char>;

    fn order_id(&self) -> (id: &str)
        ensures
            id@ == self.order_id_spec(),
    ;
}

impl OrderID for String {
    open spec fn order_id_spec(&self) -> Seq<char> {
        self@
    }

    fn order_id(&self) -> (id: &str) {
        self.as_str()
    }
}

impl OrderID for &str {
    open spec fn order_id_spec(&self) -> Seq<char> {
        self@
    }

    fn order_id(&self) -> (id: &str) {
        self
    }
}

/// A value that identifies an item.
pub trait ItemID {
    /// The identifier, as a sequence of characters.
    spec fn item_id_spec(&self) -> Seq<char>;

    fn item_id(&self) -> (id: &str)
        ensures
            id@ == self.item_id_spec(),
    ;
}

impl ItemID for String {
    open spec fn item_id_spec(&self) -> Seq<char> {
        self@
    }

    fn item_id(&self) -> (id: &str) {
        self.as_str()
    }
}

impl ItemID for &str {
    open spec fn item_id_spec(&self) -> Seq<char> {
        self@
    }

    fn item_id(&self) -> (id: &str) {
        self
    }
}

} // verus!
