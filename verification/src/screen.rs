//! One controller per screen.  Each holds only UI-local input state —
//! text fields and selections, never remote truth — and exposes a pure
//! `update` from a local message to a local action that the reducer
//! interprets.

pub mod home;
pub mod market;
pub mod receive;
pub mod send;
pub mod settings;
pub mod sign;
pub mod spaces;
