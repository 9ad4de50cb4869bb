//! A client-side model of the warframe.market trading place, and the
//! reconciliation of a seller's own listings against the live order book:
//! where each listing stands among its competitors, what the seller decides
//! to do about it, and the run that carries the decisions out.
//!
//! The library decides and computes; it does not talk to the marketplace,
//! read files or draw windows. Its callers do, and hand it plain values.

// The marketplace as data.
pub mod platinum;
pub mod shared;
pub mod traits;
pub mod request;
pub mod response;
pub mod model;
pub mod websocket;

// Listings against their competitors, and what is done about them.
pub mod stable;
pub mod book;
pub mod decision;
pub mod scanner;
pub mod standing;
pub mod resolution;
pub mod apply;
pub mod prompt;

// Around the marketplace.
pub mod text;
pub mod util;
pub mod config;
pub mod riven;
pub mod ocr;
pub mod search;
pub mod inventory;
pub mod ledger;
pub mod jobs;
pub mod windows;

pub use model::User;
pub use shared::Platform;
