//! The two lifecycle phases of the application: the setup page, which
//! binds an endpoint and a wallet, and the main page, whose reducer keeps
//! the caches in sync while the user works.

pub mod main;
pub mod setup;
