//! Where a request comes from and where it arrives.

use vstd::prelude::*;

verus! {

/// What the handlers read of the chain around the call.
#[derive(Debug, PartialEq, Eq)]
pub struct Env {
    pub contract: ContractInfo,
}

/// Where the app itself lives.
#[derive(Debug, PartialEq, Eq)]
pub struct ContractInfo {
    /// The app's own address.
    pub address: String,
}

/// Who sent the request.
#[derive(Debug, PartialEq, Eq)]
pub struct MessageInfo {
    /// The caller's address.
    pub sender: String,
}

} // verus!
