//! A uniform API over Bluetooth backends: adapters, discovery sessions,
//! remote devices and the GATT tree of services, characteristics and
//! descriptors, each exposed as one handle type that dispatches to the
//! backend variant it wraps.
//!
//! Two backends are compiled in on this build: the unsupported-platform stub,
//! whose every operation fails with a fixed sentinel error, and a mock stack
//! whose state is plain data, meant for driving tests.  Every operation's
//! behaviour, on either variant, is stated in its contract.

pub mod backend;
pub mod bluetooth;
pub mod empty;
pub mod errors;
pub mod mock;
pub mod modalias;
