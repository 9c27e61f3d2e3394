//! Setting the app up.

use vstd::prelude::*;

use crate::msg::{option_text, AppInstantiateMsg};
use crate::state::{Config, ConfigView, DCAEntryView, State};

verus! {

/// The state of an app that was just set up: configured as `msg` says, with
/// `admin` as its administrator, no DCA yet and an id counter at zero.
pub fn instantiate_handler(admin: Option<String>, msg: AppInstantiateMsg) -> (state: State)
    ensures
        state@.admin == option_text(admin),
        state@.config == (ConfigView {
            native_denom: msg.native_denom@,
            dca_creation_amount: msg.dca_creation_amount,
            refill_threshold: msg.refill_threshold,
        }),
        state@.next_id == 0,
        state@.dca_list == Map::<Seq<char>, DCAEntryView>::empty(),
{
    let config = Config {
        native_denom: msg.native_denom,
        dca_creation_amount: msg.dca_creation_amount,
        refill_threshold: msg.refill_threshold,
    };
    State::new(admin, config, 0)
}

} // verus!
