//! Messages the app accepts and the answers it gives.

use vstd::prelude::*;

use crate::error::AppError;
use crate::state::{Config, ConfigView, DCAEntry, DCAEntryView};

verus! {

/// How often a DCA buys. A frequency counts blocks or seconds; one that counts
/// none is not valid, and no request gets one stored.
#[derive(Clone, Copy, Debug, PartialEq, Eq, Structural)]
#[non_exhaustive]
pub enum Frequency {
    /// Blocks will schedule the next DCA purchase every `n` blocks.
    EveryNBlocks(u64),
    /// Time will schedule the next DCA purchase after every `n` seconds.
    EveryNSeconds(u64),
}

/// Spacing of executions as the task scheduler understands it.
#[derive(Clone, Copy, Debug, PartialEq, Eq, Structural)]
pub enum Interval {
    /// Run again every given number of blocks.
    Block(u64),
}

impl Frequency {
    /// The number of blocks or seconds from one purchase to the next.
    pub open spec fn count(self) -> u64 {
        match self {
            Frequency::EveryNBlocks(blocks) => blocks,
            Frequency::EveryNSeconds(seconds) => seconds,
        }
    }

    /// Whether the frequency counts at least one block or second.
    pub open spec fn valid(self) -> bool {
        self.count() >= 1
    }

    /// Whether the frequency counts at least one block or second.
    pub fn is_valid(&self) -> (yes: bool)
        ensures
            yes == self.valid(),
    {
        match self {
            Frequency::EveryNBlocks(blocks) => *blocks >= 1,
            Frequency::EveryNSeconds(seconds) => *seconds >= 1,
        }
    }

    /// Passes a valid frequency and turns any other down.
    pub fn assert_valid(&self) -> (outcome: Result<(), AppError>)
        ensures
            outcome == if self.valid() {
                Ok::<(), AppError>(())
            } else {
                Err(AppError::InvalidFrequency)
            },
    {
        if self.is_valid() {
            Ok(())
        } else {
            Err(AppError::InvalidFrequency)
        }
    }

    /// The scheduler interval that stands for this frequency, where there is one.
    pub open spec fn interval_spec(self) -> Result<Interval, AppError> {
        match self {
            Frequency::EveryNBlocks(blocks) => Ok(Interval::Block(blocks)),
            Frequency::EveryNSeconds(_) => Err(AppError::UnsupportedFrequency),
        }
    }

    /// Puts the frequency in the scheduler's terms. A block count carries over as
    /// it is; a frequency in seconds has no interval and is refused.
    pub fn into_interval(self) -> (interval: Result<Interval, AppError>)
        ensures
            interval == self.interval_spec(),
            interval is Ok <==> self is EveryNBlocks,
    {
        match self {
            Frequency::EveryNBlocks(blocks) => Ok(Interval::Block(blocks)),
            Frequency::EveryNSeconds(_) => Err(AppError::UnsupportedFrequency),
        }
    }
}

/// App instantiate message
#[derive(Debug, PartialEq, Eq)]
pub struct AppInstantiateMsg {
    /// Denomination of the coin that pays for task executions.
    pub native_denom: String,
    /// Amount a task is funded with when it is created or refilled.
    pub dca_creation_amount: u128,
    /// Task balance below which a conversion refills the task.
    pub refill_threshold: u128,
}

/// App execute messages
#[derive(Debug, PartialEq, Eq)]
pub enum AppExecuteMsg {
    /// Reserved for changes to the configuration; changes nothing yet.
    UpdateConfig {},
    /// Used to create a new DCA
    CreateDCA {
        /// The name of the asset to be used for purchasing
        source_asset: String,
        /// The name of the asset to be purchased
        target_asset: String,
        /// The frequency of purchase
        frequency: Frequency,
        /// The DEX to be used for the swap
        dex: String,
    },
    /// Used to update an existing DCA
    UpdateDCA {
        /// Unique identifier for the DCA
        dca_id: String,
        /// Optional new name of the asset to be used for purchasing
        new_source_asset: Option<String>,
        /// Optional new name of the asset to be purchased
        new_target_asset: Option<String>,
        /// Optional new frequency of purchase
        new_frequency: Option<Frequency>,
        /// Optional new DEX to be used for the swap
        new_dex: Option<String>,
    },
    /// Used to cancel an existing DCA
    CancelDCA {
        /// Unique identifier for the DCA
        dca_id: String,
    },
    /// Performs one purchase of a DCA; for the scheduler's manager only.
    Convert {
        /// Unique identifier for the DCA
        dca_id: String,
    },
}

/// What an [`AppExecuteMsg`] says, with its texts as character sequences.
pub enum AppExecuteMsgView {
    UpdateConfig,
    CreateDCA {
        source_asset: Seq<char>,
        target_asset: Seq<char>,
        frequency: Frequency,
        dex: Seq<char>,
    },
    UpdateDCA {
        dca_id: Seq<char>,
        new_source_asset: Option<Seq<char>>,
        new_target_asset: Option<Seq<char>>,
        new_frequency: Option<Frequency>,
        new_dex: Option<Seq<char>>,
    },
    CancelDCA { dca_id: Seq<char> },
    Convert { dca_id: Seq<char> },
}

/// The characters of an optional text.
pub open spec fn option_text(text: Option<String>) -> Option<Seq<char>> {
    match text {
        Some(t) => Some(t@),
        None => None,
    }
}

impl View for AppExecuteMsg {
    type V = AppExecuteMsgView;

    open spec fn view(&self) -> AppExecuteMsgView {
        match *self {
            AppExecuteMsg::UpdateConfig {  } => AppExecuteMsgView::UpdateConfig,
            AppExecuteMsg::CreateDCA { source_asset, target_asset, frequency, dex } => {
                AppExecuteMsgView::CreateDCA {
                    source_asset: source_asset@,
                    target_asset: target_asset@,
                    frequency,
                    dex: dex@,
                }
            },
            AppExecuteMsg::UpdateDCA {
                dca_id,
                new_source_asset,
                new_target_asset,
                new_frequency,
                new_dex,
            } => AppExecuteMsgView::UpdateDCA {
                dca_id: dca_id@,
                new_source_asset: option_text(new_source_asset),
                new_target_asset: option_text(new_target_asset),
                new_frequency,
                new_dex: option_text(new_dex),
            },
            AppExecuteMsg::CancelDCA { dca_id } => AppExecuteMsgView::CancelDCA { dca_id: dca_id@ },
            AppExecuteMsg::Convert { dca_id } => AppExecuteMsgView::Convert { dca_id: dca_id@ },
        }
    }
}

/// App query messages
#[derive(Debug, PartialEq, Eq)]
pub enum AppQueryMsg {
    /// Asks for the configuration.
    Config {},
    /// Asks for the DCA stored under an id.
    DCA {
        /// Unique identifier for the DCA
        dca_id: String,
    },
}

/// What an [`AppQueryMsg`] says, with its text as a character sequence.
pub enum AppQueryMsgView {
    Config,
    DCA { dca_id: Seq<char> },
}

impl View for AppQueryMsg {
    type V = AppQueryMsgView;

    open spec fn view(&self) -> AppQueryMsgView {
        match *self {
            AppQueryMsg::Config {  } => AppQueryMsgView::Config,
            AppQueryMsg::DCA { dca_id } => AppQueryMsgView::DCA { dca_id: dca_id@ },
        }
    }
}

/// App migrate message. A migration takes no instruction, so the message is empty.
#[derive(Clone, Copy, Debug, PartialEq, Eq, Structural)]
pub struct AppMigrateMsg {}

/// Answer to [`AppQueryMsg::Config`].
#[derive(Debug, PartialEq, Eq)]
pub struct ConfigResponse {
    pub config: Config,
}

/// Answer to [`AppQueryMsg::DCA`].
#[derive(Debug, PartialEq, Eq)]
pub struct DCAResponse {
    /// The stored DCA, or `None` where the id is not in use.
    pub dca: Option<DCAEntry>,
}

/// Answer to an [`AppQueryMsg`], one variant for each question.
#[derive(Debug, PartialEq, Eq)]
pub enum QueryResponse {
    Config(ConfigResponse),
    DCA(DCAResponse),
}

/// What a [`QueryResponse`] says, with its texts as character sequences.
pub enum QueryResponseView {
    Config(ConfigView),
    DCA(Option<DCAEntryView>),
}

impl View for QueryResponse {
    type V = QueryResponseView;

    open spec fn view(&self) -> QueryResponseView {
        match *self {
            QueryResponse::Config(response) => QueryResponseView::Config(response.config@),
            QueryResponse::DCA(response) => QueryResponseView::DCA(
                match response.dca {
                    Some(dca) => Some(dca@),
                    None => None,
                },
            ),
        }
    }
}

} // verus!
