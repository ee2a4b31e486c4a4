//! Spend-control and authorization layer for a custodial smart wallet.
//!
//! Two privilege tiers govern the wallet: low-trust hot wallets that may
//! trigger a narrow, pre-approved set of actions and periodically refill
//! their own gas, and high-trust cold principals that jointly authorize
//! sensitive actions through threshold confirmation. A registry of
//! whitelisted destination contracts bounds what any delegated action may
//! target. Every operation is a pure transition on an explicitly passed
//! wallet state; the host environment performs queries and delivers the
//! emitted calls.

pub mod types;
pub mod tax;
pub mod msgs;
pub mod state;
pub mod hot;
pub mod mgmt;
pub mod cold;
pub mod queries;
pub mod reply;
pub mod laws;
