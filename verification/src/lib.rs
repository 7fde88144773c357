//! Verified core of a small mining-fleet automation bot.
//!
//! The library holds the decision logic of the bot: how an extraction
//! response is interpreted (retry, wait out a cooldown, or stop), which
//! cargo items may be sold and which are reserved, when the contract
//! material is worth delivering, how long a navigation must wait for its
//! arrival, and in which order a delivery run and a fleet launch proceed.
//! The surrounding program performs the HTTP calls and sleeps, and hands
//! the outcomes back to these functions as plain values.

pub mod extract;
pub mod fleet;
pub mod logging;
pub mod mission;
pub mod navigate;
pub mod text;
pub mod trading;
pub mod types;

pub use types::Cargo;
pub use types::Cooldown;
pub use types::Item;
pub use types::Nav;
pub use types::Route;
pub use types::WayPoint;
