//! Verified core of a dollar-cost-averaging (DCA) app: recurring swaps of one asset
//! for another, each triggered at a fixed cadence by an external task scheduler.
//!
//! The app keeps the DCAs ([`state`]), answers the requests that create, change,
//! cancel and convert them ([`handlers`]), and says which messages are to go to
//! the scheduler ([`croncat`]) and to the exchange ([`dex`]). It sends nothing and
//! reads nothing itself: a request comes with what was read for it, and the answer
//! lists what is to be sent ([`response`]).
//!
//! Every handler is proved to compute what a spec function says of it, and
//! [`theorems`] holds what follows for all requests and all runs of them: ids are
//! handed out once, only the administrator changes anything, only a task's manager
//! converts, and each stored DCA has exactly its one task.

pub mod croncat;
pub mod dca_id;
pub mod dex;
pub mod env;
pub mod error;
pub mod handlers;
pub mod msg;
pub mod response;
pub mod state;
pub mod theorems;
