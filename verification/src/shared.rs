//! Small enumerations shared by requests, responses and live messages.

use vstd::prelude::*;

verus! {

/// Which side of a trade a listing is on.
#[derive(Clone, Copy, Debug, PartialEq, Eq, Structural, Hash)]
pub enum OrderType {
    Buy,
    Sell,
}

/// The gaming platform that an account trades on.
#[derive(Clone, Copy, Debug, PartialEq, Eq, Structural, Hash)]
pub enum Platform {
    Pc,
    Xbox,
    Ps4,
}

/// The polarity of a mod.
#[derive(Clone, Copy, Debug, PartialEq, Eq, Structural, Hash)]
pub enum ModPolarity {
    Madurai,
    Vazarin,
    Naramon,
    Zenurik,
}

} // verus!
