//! Client-side state-synchronization core of a desktop wallet application.
//!
//! The crate models the message-driven update loop of the wallet's user
//! interface: a reducer that keeps an in-memory projection of remote state
//! (chain tip, per-wallet balances, addresses, owned and bidding spaces,
//! transaction history) consistent with a server that is polled and mutated
//! asynchronously, while the user navigates between screens and issues
//! commands.  All remote calls are represented as data; the host process
//! performs them and feeds the results back in as messages.

pub mod app;
pub mod client;
pub mod config;
pub mod screen;
pub mod helpers;
pub mod icons;
pub mod label_map;
pub mod pages;
pub mod slabel;
pub mod state;
pub mod types;
pub mod util;
