//! Reasons a request is turned down.

use vstd::prelude::*;

verus! {

/// Why a request failed. Every failure is final for its request and leaves the
/// stored state as it was.
#[derive(Clone, Copy, Debug, PartialEq, Eq, Structural)]
pub enum AppError {
    /// The caller is not the administrator.
    Unauthorized,
    /// `Convert` came from an address other than the task's manager.
    NotManagerConvert,
    /// No DCA is stored under the given id.
    DcaNotFound,
    /// The frequency counts no block and no second.
    InvalidFrequency,
    /// The frequency has no counterpart among the scheduler's intervals.
    UnsupportedFrequency,
    /// The scheduler reports no task under the given tag.
    TaskNotFound,
    /// The scheduler reports the task without a balance.
    TaskBalanceNotFound,
    /// The id counter cannot be advanced any further.
    IdOverflow,
}

impl AppError {
    /// A one-line description for logs and user-facing messages.
    pub fn message(&self) -> (text: &'static str)
        ensures
            text@ == self.message_spec(),
    {
        match self {
            AppError::Unauthorized => "Caller is not admin",
            AppError::NotManagerConvert => "Convert can be called only by the croncat manager",
            AppError::DcaNotFound => "DCA not found",
            AppError::InvalidFrequency => "Frequency must be at least one",
            AppError::UnsupportedFrequency => "Frequency is not supported by the scheduler",
            AppError::TaskNotFound => "Task not found",
            AppError::TaskBalanceNotFound => "Task balance not found",
            AppError::IdOverflow => "DCA id counter overflow",
        }
    }

    /// The text that [`AppError::message`] returns.
    pub open spec fn message_spec(&self) -> Seq<char> {
        match self {
            AppError::Unauthorized => "Caller is not admin"@,
            AppError::NotManagerConvert => "Convert can be called only by the croncat manager"@,
            AppError::DcaNotFound => "DCA not found"@,
            AppError::InvalidFrequency => "Frequency must be at least one"@,
            AppError::UnsupportedFrequency => "Frequency is not supported by the scheduler"@,
            AppError::TaskNotFound => "Task not found"@,
            AppError::TaskBalanceNotFound => "Task balance not found"@,
            AppError::IdOverflow => "DCA id counter overflow"@,
        }
    }
}

} // verus!
