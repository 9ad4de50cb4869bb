//! What the marketplace is sent.

use vstd::prelude::*;
use crate::platinum::Platinum;
use crate::shared::OrderType;

verus! {

/// The body of a sign-in.
#[derive(Clone, Debug, PartialEq)]
pub struct Signin {
    pub auth_type: String,
    pub email: String,
    pub password: String,
}

/// The body of the request that places an order.
#[derive(Clone, Debug, PartialEq)]
pub struct ProfileOrder {
    pub item_id: String,
    pub order_type: OrderType,
    pub platinum: u64,
    pub quantity: u16,
    pub visible: bool,
    pub rank: Option<u8>,
    pub subtype: Option<String>,
}

/// The body of the request that updates an order. `item_id` holds the
/// identifier of the order; the price may have a fraction.
#[derive(Clone, Debug, PartialEq)]
pub struct UpdateOrder {
    pub item_id: String,
    pub platinum: Platinum,
    pub quantity: u16,
    pub visible: bool,
    pub rank: Option<u8>,
    pub subtype: Option<String>,
}

} // verus!
