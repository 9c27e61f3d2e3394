//! Requests that act: creating, changing and cancelling DCAs, and the conversion
//! that the scheduler triggers.
//!
//! Each operation is stated twice: as a spec function from the state before and
//! the request to the state after and the answer, and as the executable function
//! that is proved to compute exactly that.

use vstd::prelude::*;

use crate::croncat::{
    create_task, refill_task, remove_task, Asset, AssetView, CronCat, CronCatView, TaskAction,
    TaskActionView, TaskRequest, TaskRequestView,
};
use crate::dca_id::dca_id_spec;
use crate::dex::{swap, Decimal, OfferAsset, OfferAssetView, ATOMICS_PER_PERCENT};
use crate::env::{Env, MessageInfo};
use crate::error::AppError;
use crate::msg::{option_text, AppExecuteMsg, AppExecuteMsgView, Frequency, Interval};
use crate::response::{tag_response, AppMsg, AppMsgView, AttributeView, Response, ResponseView};
use crate::state::{
    option_dca_view, Config, ConfigView, DCAEntry, DCAEntryView, State, StateView,
};

verus! {

/// Gas set aside for one triggered conversion.
pub const CONVERT_GAS_LIMIT: u64 = 300_000;

/// Amount of the source asset that one conversion offers.
pub const CONVERT_OFFER_AMOUNT: u128 = 100;

/// Largest spread, in hundredths, that a conversion's swap puts up with.
pub const CONVERT_MAX_SPREAD_PERCENT: u64 = 30;

/// The state after a request together with the answer to it.
pub struct Outcome {
    pub state: StateView,
    pub result: Result<ResponseView, AppError>,
}

impl Outcome {
    /// The request is turned down with `error` and `state` stays as it is.
    pub open spec fn refused(state: StateView, error: AppError) -> Outcome {
        Outcome { state, result: Err(error) }
    }

    /// The request goes through: `state` is the state after it, and the operation
    /// `action` answers with `messages` and `attributes`.
    pub open spec fn done(
        state: StateView,
        action: Seq<char>,
        messages: Seq<AppMsgView>,
        attributes: Seq<AttributeView>,
    ) -> Outcome {
        Outcome { state, result: Ok(ResponseView { messages, attributes, action }) }
    }
}

/// An answer with its texts as character sequences.
pub open spec fn result_view(result: Result<Response, AppError>) -> Result<ResponseView, AppError> {
    match result {
        Ok(response) => Ok(response@),
        Err(error) => Err(error),
    }
}

/// A message or the reason there is none, with its texts as character sequences.
pub open spec fn msg_view(result: Result<AppMsg, AppError>) -> Result<AppMsgView, AppError> {
    match result {
        Ok(msg) => Ok(msg@),
        Err(error) => Err(error),
    }
}

/// What a task is funded with, at its creation and at each refill.
pub open spec fn task_funds(config: ConfigView) -> AssetView {
    AssetView { denom: config.native_denom, amount: config.dca_creation_amount }
}

/// The task that keeps converting the DCA `dca_id`: at each `interval` it calls
/// the app at `contract_addr` with `Convert` for that DCA, without funds, and it
/// stops for good once a call fails. It has no boundary, asks nothing before it
/// runs, changes nothing in its action and carries no tokens.
pub open spec fn convert_task(
    contract_addr: Seq<char>,
    interval: Interval,
    dca_id: Seq<char>,
) -> TaskRequestView {
    TaskRequestView {
        interval,
        boundary: None,
        stop_on_fail: true,
        action: TaskActionView {
            contract_addr,
            msg: AppExecuteMsgView::Convert { dca_id },
            funds: Seq::empty(),
            gas_limit: Some(CONVERT_GAS_LIMIT),
        },
        queries: None,
        transforms: None,
        cw20: None,
    }
}

/// The request that registers the task of the DCA `dca_id`, to run at each
/// `interval` and funded as `config` says.
pub open spec fn create_task_msg(
    contract_addr: Seq<char>,
    interval: Interval,
    dca_id: Seq<char>,
    config: ConfigView,
) -> AppMsgView {
    AppMsgView::CreateTask {
        task: convert_task(contract_addr, interval, dca_id),
        task_tag: dca_id,
        assets: task_funds(config),
    }
}

/// The request that registers the task of the DCA `dca_id`, or the reason why the
/// scheduler cannot run a task at the DCA's frequency.
pub open spec fn create_convert_task_spec(
    contract_addr: Seq<char>,
    dca: DCAEntryView,
    dca_id: Seq<char>,
    config: ConfigView,
) -> Result<AppMsgView, AppError> {
    match dca.frequency.interval_spec() {
        Ok(interval) => Ok(create_task_msg(contract_addr, interval, dca_id, config)),
        Err(error) => Err(error),
    }
}

/// The request that stops the task of the DCA `dca_id`.
pub open spec fn remove_task_msg(dca_id: Seq<char>) -> AppMsgView {
    AppMsgView::RemoveTask { task_tag: dca_id }
}

/// The request that tops up the task of the DCA `dca_id`.
pub open spec fn refill_task_msg(config: ConfigView, dca_id: Seq<char>) -> AppMsgView {
    AppMsgView::RefillTask { task_tag: dca_id, assets: task_funds(config) }
}

/// The swap that one conversion of `dca` asks for.
pub open spec fn swap_msg(dca: DCAEntryView) -> AppMsgView {
    AppMsgView::Swap {
        dex: dca.dex,
        offer_asset: OfferAssetView { name: dca.source_asset, amount: CONVERT_OFFER_AMOUNT },
        ask_asset: dca.target_asset,
        max_spread: Some(Decimal { atomics: (CONVERT_MAX_SPREAD_PERCENT * ATOMICS_PER_PERCENT) as u128 }),
        belief_price: None,
    }
}

/// `UpdateConfig`: open to the administrator only, and without effect so far.
pub open spec fn update_config_spec(state: StateView, sender: Seq<char>) -> Outcome {
    if !state.is_admin(sender) {
        Outcome::refused(state, AppError::Unauthorized)
    } else {
        Outcome::done(state, "update_config"@, Seq::empty(), Seq::empty())
    }
}

/// `CreateDCA`: the administrator gets a new DCA stored under the next id, and a
/// task registered for it. The answer carries the registration and, as the
/// attribute `dca_id`, the new id. A frequency that is not valid, or that the
/// scheduler cannot serve, is turned down and nothing changes.
pub open spec fn create_dca_spec(
    state: StateView,
    contract_addr: Seq<char>,
    sender: Seq<char>,
    dca: DCAEntryView,
) -> Outcome {
    if !state.is_admin(sender) {
        Outcome::refused(state, AppError::Unauthorized)
    } else if !dca.frequency.valid() {
        Outcome::refused(state, AppError::InvalidFrequency)
    } else if state.next_id == u64::MAX {
        Outcome::refused(state, AppError::IdOverflow)
    } else {
        let dca_id = dca_id_spec((state.next_id + 1) as nat);
        match create_convert_task_spec(contract_addr, dca, dca_id, state.config) {
            Err(error) => Outcome::refused(state, error),
            Ok(task_msg) => Outcome::done(
                state.count_up().save(dca_id, dca),
                "create_dca"@,
                seq![task_msg],
                seq![AttributeView { key: "dca_id"@, value: dca_id }],
            ),
        }
    }
}

/// The text that replaces `old_text`: `new_text` where one is given.
pub open spec fn text_or(new_text: Option<Seq<char>>, old_text: Seq<char>) -> Seq<char> {
    match new_text {
        Some(text) => text,
        None => old_text,
    }
}

/// `dca` with each given field put in place of the old one.
pub open spec fn updated_dca(
    dca: DCAEntryView,
    new_source_asset: Option<Seq<char>>,
    new_target_asset: Option<Seq<char>>,
    new_frequency: Option<Frequency>,
    new_dex: Option<Seq<char>>,
) -> DCAEntryView {
    DCAEntryView {
        source_asset: text_or(new_source_asset, dca.source_asset),
        target_asset: text_or(new_target_asset, dca.target_asset),
        frequency: match new_frequency {
            Some(frequency) => frequency,
            None => dca.frequency,
        },
        dex: text_or(new_dex, dca.dex),
    }
}

/// The messages that an update to `new_frequency` sends: the removal of the DCA's
/// task, then its registration at the new frequency. Without a new frequency
/// there is none.
pub open spec fn recreate_task_msgs(
    contract_addr: Seq<char>,
    new_frequency: Option<Frequency>,
    dca_id: Seq<char>,
    config: ConfigView,
) -> Seq<AppMsgView> {
    match new_frequency {
        Some(Frequency::EveryNBlocks(blocks)) => seq![
            remove_task_msg(dca_id),
            create_task_msg(contract_addr, Interval::Block(blocks), dca_id, config),
        ],
        _ => Seq::empty(),
    }
}

/// What an update stores in place of `stored`. There must be a DCA to update, and
/// a new frequency must be one the scheduler can serve.
pub open spec fn updated_dca_spec(
    stored: Option<DCAEntryView>,
    new_source_asset: Option<Seq<char>>,
    new_target_asset: Option<Seq<char>>,
    new_frequency: Option<Frequency>,
    new_dex: Option<Seq<char>>,
) -> Result<DCAEntryView, AppError> {
    match stored {
        None => Err(AppError::DcaNotFound),
        Some(dca) => match new_frequency {
            Some(Frequency::EveryNSeconds(_)) => Err(AppError::UnsupportedFrequency),
            _ => Ok(updated_dca(dca, new_source_asset, new_target_asset, new_frequency, new_dex)),
        },
    }
}

/// `UpdateDCA`: the administrator gets the given fields of a stored DCA replaced.
/// Where a frequency is among them, the DCA's task is dropped and registered
/// anew, in this order; else no message goes out. A new frequency that is not
/// valid, or that the scheduler cannot serve, is turned down and nothing changes.
pub open spec fn update_dca_spec(
    state: StateView,
    contract_addr: Seq<char>,
    sender: Seq<char>,
    dca_id: Seq<char>,
    new_source_asset: Option<Seq<char>>,
    new_target_asset: Option<Seq<char>>,
    new_frequency: Option<Frequency>,
    new_dex: Option<Seq<char>>,
) -> Outcome {
    if !state.is_admin(sender) {
        Outcome::refused(state, AppError::Unauthorized)
    } else if new_frequency is Some && !new_frequency->Some_0.valid() {
        Outcome::refused(state, AppError::InvalidFrequency)
    } else {
        match updated_dca_spec(
            state.dca(dca_id),
            new_source_asset,
            new_target_asset,
            new_frequency,
            new_dex,
        ) {
            Err(error) => Outcome::refused(state, error),
            Ok(dca) => Outcome::done(
                state.save(dca_id, dca),
                "update_dca"@,
                recreate_task_msgs(contract_addr, new_frequency, dca_id, state.config),
                Seq::empty(),
            ),
        }
    }
}

/// `CancelDCA`: the administrator gets the DCA deleted and its task dropped,
/// whether or not either exists.
pub open spec fn cancel_dca_spec(
    state: StateView,
    sender: Seq<char>,
    dca_id: Seq<char>,
) -> Outcome {
    if !state.is_admin(sender) {
        Outcome::refused(state, AppError::Unauthorized)
    } else {
        Outcome::done(
            state.remove(dca_id),
            "cancel_dca"@,
            seq![remove_task_msg(dca_id)],
            Seq::empty(),
        )
    }
}

/// The messages of a conversion: a refill first where the task's balance has
/// fallen below the threshold, then the swap.
pub open spec fn convert_msgs(
    config: ConfigView,
    dca: DCAEntryView,
    dca_id: Seq<char>,
    native_balance: u128,
) -> Seq<AppMsgView> {
    if native_balance < config.refill_threshold {
        seq![refill_task_msg(config, dca_id), swap_msg(dca)]
    } else {
        seq![swap_msg(dca)]
    }
}

/// `Convert`: one purchase of a stored DCA, for the manager of the DCA's task and
/// for nobody else. A task that the scheduler reports without a balance is not
/// converted. The state stays as it is.
pub open spec fn convert_spec(
    state: StateView,
    cron_cat: CronCatView,
    contract_addr: Seq<char>,
    sender: Seq<char>,
    dca_id: Seq<char>,
) -> Outcome {
    if !state.dca_list.contains_key(dca_id) {
        Outcome::refused(state, AppError::DcaNotFound)
    } else {
        match cron_cat.task(contract_addr, dca_id) {
            None => Outcome::refused(state, AppError::TaskNotFound),
            Some(task) => if task.manager_addr != sender {
                Outcome::refused(state, AppError::NotManagerConvert)
            } else {
                match task.native_balance {
                    None => Outcome::refused(state, AppError::TaskBalanceNotFound),
                    Some(native_balance) => Outcome::done(
                        state,
                        "convert"@,
                        convert_msgs(state.config, state.dca_list[dca_id], dca_id, native_balance),
                        Seq::empty(),
                    ),
                }
            },
        }
    }
}

/// What a request does: the state after it and the answer to it.
pub open spec fn execute_spec(
    state: StateView,
    cron_cat: CronCatView,
    contract_addr: Seq<char>,
    sender: Seq<char>,
    msg: AppExecuteMsgView,
) -> Outcome {
    match msg {
        AppExecuteMsgView::UpdateConfig => update_config_spec(state, sender),
        AppExecuteMsgView::CreateDCA { source_asset, target_asset, frequency, dex } => {
            create_dca_spec(
                state,
                contract_addr,
                sender,
                DCAEntryView { source_asset, target_asset, frequency, dex },
            )
        },
        AppExecuteMsgView::UpdateDCA {
            dca_id,
            new_source_asset,
            new_target_asset,
            new_frequency,
            new_dex,
        } => update_dca_spec(
            state,
            contract_addr,
            sender,
            dca_id,
            new_source_asset,
            new_target_asset,
            new_frequency,
            new_dex,
        ),
        AppExecuteMsgView::CancelDCA { dca_id } => cancel_dca_spec(state, sender, dca_id),
        AppExecuteMsgView::Convert { dca_id } => convert_spec(
            state,
            cron_cat,
            contract_addr,
            sender,
            dca_id,
        ),
    }
}

/// Helper for the task creation message: the request that registers the task of
/// the DCA `dca_id`, funded as `config` says. Fails where the scheduler cannot
/// run a task at the DCA's frequency.
pub fn create_convert_task_internal(
    env: &Env,
    dca: &DCAEntry,
    dca_id: String,
    config: &Config,
) -> (outcome: Result<AppMsg, AppError>)
    ensures
        msg_view(outcome) == create_convert_task_spec(
            env.contract.address@,
            dca@,
            dca_id@,
            config@,
        ),
{
    let interval = match dca.frequency.into_interval() {
        Ok(interval) => interval,
        Err(error) => {
            return Err(error);
        },
    };
    let task = TaskRequest {
        interval,
        boundary: None,
        stop_on_fail: true,
        action: TaskAction {
            contract_addr: env.contract.address.clone(),
            msg: AppExecuteMsg::Convert { dca_id: dca_id.clone() },
            funds: Vec::new(),
            gas_limit: Some(CONVERT_GAS_LIMIT),
        },
        queries: None,
        transforms: None,
        cw20: None,
    };
    assert(task@.action.funds =~= Seq::<AssetView>::empty());
    let assets = Asset {
        denom: config.native_denom.clone(),
        amount: config.dca_creation_amount,
    };
    Ok(create_task(task, dca_id, assets))
}

/// Update the configuration of the app
pub fn update_config(state: &State, info: &MessageInfo) -> (outcome: Result<
    Response,
    AppError,
>)
    ensures
        result_view(outcome) == update_config_spec(state@, info.sender@).result,
{
    // Only the admin should be able to call this
    match state.assert_admin(&info.sender) {
        Ok(()) => {},
        Err(error) => {
            return Err(error);
        },
    }
    Ok(tag_response(Response::new(), "update_config"))
}

/// Create new DCA
pub fn create_dca(
    state: &mut State,
    env: &Env,
    info: &MessageInfo,
    source_asset: String,
    target_asset: String,
    frequency: Frequency,
    dex_name: String,
) -> (outcome: Result<Response, AppError>)
    ensures
        final(state)@ == create_dca_spec(
            old(state)@,
            env.contract.address@,
            info.sender@,
            DCAEntryView {
                source_asset: source_asset@,
                target_asset: target_asset@,
                frequency,
                dex: dex_name@,
            },
        ).state,
        result_view(outcome) == create_dca_spec(
            old(state)@,
            env.contract.address@,
            info.sender@,
            DCAEntryView {
                source_asset: source_asset@,
                target_asset: target_asset@,
                frequency,
                dex: dex_name@,
            },
        ).result,
        outcome is Err ==> final(state)@ == old(state)@,
{
    // Only the admin should be able to create dca
    match state.assert_admin(&info.sender) {
        Ok(()) => {},
        Err(error) => {
            return Err(error);
        },
    }
    match frequency.assert_valid() {
        Ok(()) => {},
        Err(error) => {
            return Err(error);
        },
    }
    let config = state.config().clone();
    if state.next_id() == u64::MAX {
        return Err(AppError::IdOverflow);
    }
    // A frequency the scheduler cannot serve is turned down before anything is
    // written.
    match frequency.into_interval() {
        Ok(_) => {},
        Err(error) => {
            return Err(error);
        },
    }

    // Generate DCA ID
    let dca_id = match state.generate_id() {
        Ok(dca_id) => dca_id,
        Err(error) => {
            return Err(error);
        },
    };

    let dca_entry = DCAEntry { source_asset, target_asset, frequency, dex: dex_name };
    state.save(dca_id.clone(), dca_entry.clone());

    // The frequency was looked at above: from here on nothing fails.
    let task_msg = match create_convert_task_internal(env, &dca_entry, dca_id.clone(), &config) {
        Ok(task_msg) => task_msg,
        Err(error) => {
            return Err(error);
        },
    };

    let response = Response::new().add_message(task_msg).add_attribute("dca_id", dca_id);
    Ok(tag_response(response, "create_dca"))
}

/// The text that replaces `old_text`: `new_text` where one is given.
fn replace_text(new_text: Option<String>, old_text: String) -> (text: String)
    ensures
        text@ == text_or(option_text(new_text), old_text@),
{
    match new_text {
        Some(text) => text,
        None => old_text,
    }
}

/// What an update makes of the stored DCA, with its texts as character sequences.
pub open spec fn made_view(made: Result<DCAEntry, AppError>) -> Result<DCAEntryView, AppError> {
    match made {
        Ok(dca) => Ok(dca@),
        Err(error) => Err(error),
    }
}

/// Update existing dca
pub fn update_dca(
    state: &mut State,
    env: &Env,
    info: &MessageInfo,
    dca_id: String,
    new_source_asset: Option<String>,
    new_target_asset: Option<String>,
    new_frequency: Option<Frequency>,
    new_dex: Option<String>,
) -> (outcome: Result<Response, AppError>)
    ensures
        final(state)@ == update_dca_spec(
            old(state)@,
            env.contract.address@,
            info.sender@,
            dca_id@,
            option_text(new_source_asset),
            option_text(new_target_asset),
            new_frequency,
            option_text(new_dex),
        ).state,
        result_view(outcome) == update_dca_spec(
            old(state)@,
            env.contract.address@,
            info.sender@,
            dca_id@,
            option_text(new_source_asset),
            option_text(new_target_asset),
            new_frequency,
            option_text(new_dex),
        ).result,
        outcome is Err ==> final(state)@ == old(state)@,
{
    match state.assert_admin(&info.sender) {
        Ok(()) => {},
        Err(error) => {
            return Err(error);
        },
    }

    match new_frequency {
        Some(frequency) => match frequency.assert_valid() {
            Ok(()) => {},
            Err(error) => {
                return Err(error);
            },
        },
        None => {},
    }

    // Only if frequency is changed we have to re-create a task
    let recreate_task = new_frequency.is_some();

    let ghost source_text = option_text(new_source_asset);
    let ghost target_text = option_text(new_target_asset);
    let ghost dex_text = option_text(new_dex);
    let updated = state.update(
        dca_id.clone(),
        |dca: Option<DCAEntry>| -> (made: Result<DCAEntry, AppError>)
            ensures
                made_view(made) == updated_dca_spec(
                    option_dca_view(dca),
                    source_text,
                    target_text,
                    new_frequency,
                    dex_text,
                )
            {
                match dca {
                    None => Err(AppError::DcaNotFound),
                    Some(old_dca) => {
                        let frequency = match new_frequency {
                            Some(frequency) => frequency,
                            None => old_dca.frequency,
                        };
                        // A frequency the scheduler cannot serve is turned down
                        // here, before anything is written.
                        if recreate_task && frequency.into_interval().is_err() {
                            Err(AppError::UnsupportedFrequency)
                        } else {
                            Ok(
                                DCAEntry {
                                    source_asset: replace_text(
                                        new_source_asset,
                                        old_dca.source_asset,
                                    ),
                                    target_asset: replace_text(
                                        new_target_asset,
                                        old_dca.target_asset,
                                    ),
                                    frequency,
                                    dex: replace_text(new_dex, old_dca.dex),
                                },
                            )
                        }
                    },
                }
            },
    );
    let dca = match updated {
        Ok(dca) => dca,
        Err(error) => {
            return Err(error);
        },
    };

    let response = if recreate_task {
        let config = state.config().clone();
        let remove_task_msg = remove_task(dca_id.clone());
        // The update has looked at the frequency: from here on nothing fails.
        let create_task_msg = match create_convert_task_internal(env, &dca, dca_id, &config) {
            Ok(create_task_msg) => create_task_msg,
            Err(error) => {
                return Err(error);
            },
        };
        let mut messages: Vec<AppMsg> = Vec::new();
        messages.push(remove_task_msg);
        messages.push(create_task_msg);
        let response = Response::new().add_messages(messages);
        assert(response@.messages =~= seq![remove_task_msg@, create_task_msg@]);
        response
    } else {
        Response::new()
    };
    Ok(tag_response(response, "update_dca"))
}

/// Remove existing dca, remove task from cron_cat
pub fn cancel_dca(state: &mut State, info: &MessageInfo, dca_id: String) -> (outcome: Result<
    Response,
    AppError,
>)
    ensures
        final(state)@ == cancel_dca_spec(old(state)@, info.sender@, dca_id@).state,
        result_view(outcome) == cancel_dca_spec(old(state)@, info.sender@, dca_id@).result,
        outcome is Err ==> final(state)@ == old(state)@,
{
    match state.assert_admin(&info.sender) {
        Ok(()) => {},
        Err(error) => {
            return Err(error);
        },
    }

    state.remove(&dca_id);

    let remove_task_msg = remove_task(dca_id);

    let response = Response::new().add_message(remove_task_msg);
    Ok(tag_response(response, "cancel_dca"))
}

/// Passes the manager of a task and turns every other caller down.
pub fn assert_manager(manager_addr: &String, sender: &String) -> (outcome: Result<(), AppError>)
    ensures
        outcome == if manager_addr@ == sender@ {
            Ok::<(), AppError>(())
        } else {
            Err(AppError::NotManagerConvert)
        },
{
    if *manager_addr == *sender {
        Ok(())
    } else {
        Err(AppError::NotManagerConvert)
    }
}

/// Execute swap if called by croncat manager
/// Refill task if needed
pub fn convert(
    state: &State,
    cron_cat: &CronCat,
    env: &Env,
    info: &MessageInfo,
    dca_id: String,
) -> (outcome: Result<Response, AppError>)
    ensures
        result_view(outcome) == convert_spec(
            state@,
            cron_cat@,
            env.contract.address@,
            info.sender@,
            dca_id@,
        ).result,
{
    let config = state.config();
    let dca = match state.load(&dca_id) {
        Ok(dca) => dca,
        Err(error) => {
            return Err(error);
        },
    };

    let manager_addr = match cron_cat.query_manager_addr(&env.contract.address, &dca_id) {
        Ok(manager_addr) => manager_addr,
        Err(error) => {
            return Err(error);
        },
    };
    match assert_manager(&manager_addr, &info.sender) {
        Ok(()) => {},
        Err(error) => {
            return Err(error);
        },
    }
    let mut messages: Vec<AppMsg> = Vec::new();

    // In case task running out of balance - refill it
    let task_balance = match cron_cat.query_task_balance(&env.contract.address, &dca_id) {
        Ok(task_balance) => task_balance,
        Err(error) => {
            return Err(error);
        },
    };
    if task_balance < config.refill_threshold {
        let assets = Asset {
            denom: config.native_denom.clone(),
            amount: config.dca_creation_amount,
        };
        messages.push(refill_task(dca_id, assets));
    }

    let offer_asset = OfferAsset { name: dca.source_asset, amount: CONVERT_OFFER_AMOUNT };
    messages.push(
        swap(
            dca.dex,
            offer_asset,
            dca.target_asset,
            Some(Decimal::percent(CONVERT_MAX_SPREAD_PERCENT)),
            None,
        ),
    );
    let response = Response::new().add_messages(messages);
    assert(response@.messages =~= convert_msgs(state@.config, dca@, dca_id@, task_balance));
    Ok(tag_response(response, "convert"))
}

/// Handles one request that acts: works out which operation it asks for and
/// leaves the rest to that operation.
pub fn execute_handler(
    state: &mut State,
    cron_cat: &CronCat,
    env: &Env,
    info: &MessageInfo,
    msg: AppExecuteMsg,
) -> (outcome: Result<Response, AppError>)
    ensures
        final(state)@ == execute_spec(
            old(state)@,
            cron_cat@,
            env.contract.address@,
            info.sender@,
            msg@,
        ).state,
        result_view(outcome) == execute_spec(
            old(state)@,
            cron_cat@,
            env.contract.address@,
            info.sender@,
            msg@,
        ).result,
        outcome is Err ==> final(state)@ == old(state)@,
{
    match msg {
        AppExecuteMsg::UpdateConfig {  } => update_config(state, info),
        AppExecuteMsg::CreateDCA { source_asset, target_asset, frequency, dex } => create_dca(
            state,
            env,
            info,
            source_asset,
            target_asset,
            frequency,
            dex,
        ),
        AppExecuteMsg::UpdateDCA {
            dca_id,
            new_source_asset,
            new_target_asset,
            new_frequency,
            new_dex,
        } => update_dca(
            state,
            env,
            info,
            dca_id,
            new_source_asset,
            new_target_asset,
            new_frequency,
            new_dex,
        ),
        AppExecuteMsg::CancelDCA { dca_id } => cancel_dca(state, info, dca_id),
        AppExecuteMsg::Convert { dca_id } => convert(state, cron_cat, env, info, dca_id),
    }
}

} // verus!
