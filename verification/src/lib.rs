//! Worker execution units for an embedded scripting runtime.
//!
//! A [`worker::Worker`] pairs an exclusively locked execution environment with
//! a duplex message channel back to its creator, and is driven to completion
//! one bounded step at a time.  [`web_worker::WebWorker`] layers a
//! capability profile (a set of host operations registered at construction)
//! on top of the generic worker.

pub mod channel;
pub mod env;
pub mod errors;
pub mod lock;
pub mod state;
pub mod web_worker;
pub mod worker;
