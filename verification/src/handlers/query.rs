//! Requests that ask: they read the state and change nothing.

use vstd::prelude::*;

use crate::msg::{
    AppQueryMsg, AppQueryMsgView, ConfigResponse, DCAResponse, QueryResponse, QueryResponseView,
};
use crate::state::{option_dca_view, State, StateView};

verus! {

/// The answer that `state` gives to `msg`.
pub open spec fn query_spec(state: StateView, msg: AppQueryMsgView) -> QueryResponseView {
    match msg {
        AppQueryMsgView::Config => QueryResponseView::Config(state.config),
        AppQueryMsgView::DCA { dca_id } => QueryResponseView::DCA(state.dca(dca_id)),
    }
}

/// Answers one request that asks.
pub fn query_handler(state: &State, msg: AppQueryMsg) -> (response: QueryResponse)
    ensures
        response@ == query_spec(state@, msg@),
{
    match msg {
        AppQueryMsg::Config {  } => QueryResponse::Config(query_config(state)),
        AppQueryMsg::DCA { dca_id } => QueryResponse::DCA(query_dca(state, dca_id)),
    }
}

/// Get config
pub fn query_config(state: &State) -> (response: ConfigResponse)
    ensures
        response.config@ == state@.config,
{
    let config = state.config().clone();
    ConfigResponse { config }
}

/// Get dca
pub fn query_dca(state: &State, dca_id: String) -> (response: DCAResponse)
    ensures
        option_dca_view(response.dca) == state@.dca(dca_id@),
{
    let dca = state.may_load(&dca_id);
    DCAResponse { dca }
}

} // verus!
