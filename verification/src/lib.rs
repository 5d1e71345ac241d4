//! A key directory and encrypted-message relay.
//!
//! Accounts publish a rotating X25519 public key, look up the current key of
//! a counterparty, and hand the relay ciphertext to announce. The relay keeps
//! only directory state (profiles, group metadata, two counters); every message
//! leaves it as a notification and is never stored.
//!
//! The whole state is one owned value, [`contract::WhisperContract`]. Each
//! operation takes the facts about the call that the host supplies (who calls,
//! what value is attached, what time it is) as a [`context::CallContext`] and
//! returns either the notification to publish or the reason for rejecting the
//! call. A rejected call leaves the state exactly as it was.
//!
//! What each operation does is written down once, as a function on plain
//! mathematical values, in [`model`]; the operations in [`contract`] are proved
//! to do exactly that, and [`laws`] holds what follows for all states and all
//! series of calls. [`wire`] writes notifications as the JSON that indexers
//! read, with [`json`] underneath; [`keys`] checks the shape of a key;
//! [`store`] is the map that the registry and the directory are kept in.

pub mod error;
pub mod store;
pub mod profile;
pub mod group;
pub mod context;
pub mod keys;
pub mod event;
pub mod model;
pub mod contract;
pub mod laws;
pub mod json;
pub mod wire;
