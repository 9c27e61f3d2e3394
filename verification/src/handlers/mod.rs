//! The entry points: one to set the app up, one for requests that act, one for
//! requests that ask.

pub mod execute;
pub mod instantiate;
pub mod query;
