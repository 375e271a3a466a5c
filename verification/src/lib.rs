//! Task-state synchronisation engine for tracking coding-agent sessions.
//!
//! The crate holds the authoritative store of projects and tasks, the
//! mutations that the gateway and the user interface ask for, the policy
//! that decides when a state change deserves an alert, the derivation of the
//! aggregate status for the tray, the cleanup sweep, what is made of the
//! snapshot found on disk, and the comparison of a presented credential with
//! the shared secret.
//!
//! The store is changed in memory only. Each request returns the effects
//! that the caller has to perform once it has let go of the store: pushing
//! the snapshot to the user interface, showing an alert, rebuilding the
//! tray, writing the snapshot to disk.
//!
//! Contracts are stated over views: a record is viewed with its strings
//! read as sequences of characters, and the store as maps from key to
//! record. The few calls into other crates stand behind functions whose
//! contracts are taken on trust; each of them says so.

pub mod auth;
pub mod commands;
pub mod handlers;
pub mod keyed;
pub mod notify;
pub mod persist;
pub mod state;
pub mod store;
pub mod text;
pub mod toolbar;
pub mod tray;
pub mod types;
pub mod utils;
