//! What holds of every request and of every run of requests, proved of the spec
//! functions that the handlers are verified against.

use vstd::prelude::*;

use crate::croncat::{CronCatView, TaskRequestView};
use crate::dca_id::{dca_id_spec, lemma_dca_id_injective};
use crate::error::AppError;
use crate::handlers::execute::{
    cancel_dca_spec, convert_spec, convert_task, create_task_msg, execute_spec,
    refill_task_msg, remove_task_msg, swap_msg, task_funds, update_dca_spec, Outcome,
};
use crate::msg::{AppExecuteMsgView, Frequency, Interval};
use crate::response::{AppMsgView, ResponseView};
use crate::state::{DCAEntryView, StateView};

verus! {

/// A request as it reaches the app: the message, who sent it, the app's own
/// address, and what the scheduler says at that moment.
pub struct Request {
    pub cron_cat: CronCatView,
    pub contract_addr: Seq<char>,
    pub sender: Seq<char>,
    pub msg: AppExecuteMsgView,
}

/// What one request does to `state`.
pub open spec fn step(state: StateView, request: Request) -> Outcome {
    execute_spec(state, request.cron_cat, request.contract_addr, request.sender, request.msg)
}

/// The state after `requests` were handled one after the other, starting from
/// `state`.
pub open spec fn run(state: StateView, requests: Seq<Request>) -> StateView
    decreases requests.len(),
{
    if requests.len() == 0 {
        state
    } else {
        step(run(state, requests.drop_last()), requests.last()).state
    }
}

/// What the request at position `i` of a run does, given the state that the
/// requests before it left.
pub open spec fn outcome_at(state: StateView, requests: Seq<Request>, i: int) -> Outcome
    recommends
        0 <= i < requests.len(),
{
    step(run(state, requests.take(i)), requests[i])
}

/// Whether the request at position `i` of a run creates a DCA.
pub open spec fn creates_at(state: StateView, requests: Seq<Request>, i: int) -> bool
    recommends
        0 <= i < requests.len(),
{
    requests[i].msg is CreateDCA && outcome_at(state, requests, i).result is Ok
}

/// The id that the answer to a creation reports.
pub open spec fn reported_id(response: ResponseView) -> Seq<char>
    recommends
        response.attributes.len() > 0,
{
    response.attributes[0].value
}

/// A request that fails leaves the state as it was.
pub proof fn theorem_failure_changes_nothing(state: StateView, request: Request)
    requires
        step(state, request).result is Err,
    ensures
        step(state, request).state == state,
{
}

/// No request ever lowers the id counter, and a creation raises it by one and
/// reports the id named after the new value.
pub proof fn lemma_step_counter(state: StateView, request: Request)
    ensures
        state.next_id <= step(state, request).state.next_id,
        request.msg is CreateDCA && step(state, request).result is Ok ==> {
            &&& step(state, request).state.next_id == state.next_id + 1
            &&& reported_id(step(state, request).result->Ok_0) == dca_id_spec(
                (state.next_id + 1) as nat,
            )
        },
{
}

/// Along a run the id counter never falls.
pub proof fn lemma_run_counter_monotonic(
    state: StateView,
    requests: Seq<Request>,
    a: int,
    b: int,
)
    requires
        0 <= a <= b <= requests.len(),
    ensures
        run(state, requests.take(a)).next_id <= run(state, requests.take(b)).next_id,
    decreases b - a,
{
    if a < b {
        lemma_run_counter_monotonic(state, requests, a, b - 1);
        assert(requests.take(b).drop_last() =~= requests.take(b - 1));
        lemma_step_counter(run(state, requests.take(b - 1)), requests[b - 1]);
    }
}

/// Ids are never handed out twice. Of two creations in one run, whatever other
/// requests surround them, the later one is named after a strictly greater counter
/// value, and the two ids differ.
pub proof fn theorem_created_ids_unique(
    state: StateView,
    requests: Seq<Request>,
    i: int,
    j: int,
)
    requires
        0 <= i < j < requests.len(),
        creates_at(state, requests, i),
        creates_at(state, requests, j),
    ensures
        reported_id(outcome_at(state, requests, i).result->Ok_0) == dca_id_spec(
            outcome_at(state, requests, i).state.next_id as nat,
        ),
        reported_id(outcome_at(state, requests, j).result->Ok_0) == dca_id_spec(
            outcome_at(state, requests, j).state.next_id as nat,
        ),
        outcome_at(state, requests, i).state.next_id < outcome_at(
            state,
            requests,
            j,
        ).state.next_id,
        reported_id(outcome_at(state, requests, i).result->Ok_0) != reported_id(
            outcome_at(state, requests, j).result->Ok_0,
        ),
{
    let before_i = run(state, requests.take(i));
    let before_j = run(state, requests.take(j));
    lemma_step_counter(before_i, requests[i]);
    lemma_step_counter(before_j, requests[j]);
    assert(requests.take(i + 1).drop_last() =~= requests.take(i));
    lemma_run_counter_monotonic(state, requests, i + 1, j);
    let n_i = outcome_at(state, requests, i).state.next_id as nat;
    let n_j = outcome_at(state, requests, j).state.next_id as nat;
    if dca_id_spec(n_i) == dca_id_spec(n_j) {
        lemma_dca_id_injective(n_i, n_j);
    }
}

/// Whether `dca_id` is the id of one of the counter values from 1 up to
/// `next_id`.
pub open spec fn is_issued(dca_id: Seq<char>, next_id: u64) -> bool {
    exists|n: nat| 1 <= n <= next_id && dca_id == #[trigger] dca_id_spec(n)
}

/// Every stored DCA sits under an id that the counter has already passed.
pub open spec fn ids_are_issued(state: StateView) -> bool {
    forall|dca_id: Seq<char>| #[trigger]
        state.dca_list.contains_key(dca_id) ==> is_issued(dca_id, state.next_id)
}

/// An id, once used, is never given to another DCA. Where every stored DCA sits
/// under an id that the counter has passed, as it is in an app without DCAs, the
/// same holds after any request, and a creation stores the new DCA under an id
/// that was not in use.
pub proof fn theorem_ids_are_not_reused(state: StateView, request: Request)
    requires
        ids_are_issued(state),
    ensures
        ids_are_issued(step(state, request).state),
        request.msg is CreateDCA && step(state, request).result is Ok
            ==> !state.dca_list.contains_key(reported_id(step(state, request).result->Ok_0)),
{
    let after = step(state, request).state;
    let new_id = dca_id_spec((state.next_id + 1) as nat);
    assert forall|dca_id: Seq<char>| #[trigger] after.dca_list.contains_key(dca_id) implies is_issued(
        dca_id,
        after.next_id,
    ) by {
        if state.dca_list.contains_key(dca_id) {
            assert(is_issued(dca_id, state.next_id));
        } else {
            assert(dca_id == new_id);
        }
    }
    if state.dca_list.contains_key(new_id) {
        let n = choose|n: nat| 1 <= n <= state.next_id && new_id == #[trigger] dca_id_spec(n);
        lemma_dca_id_injective(n, (state.next_id + 1) as nat);
    }
}

/// An app without DCAs holds no id that the counter has not passed.
pub proof fn theorem_fresh_app_ids_are_issued(state: StateView)
    requires
        state.dca_list == Map::<Seq<char>, DCAEntryView>::empty(),
    ensures
        ids_are_issued(state),
{
}

/// Along a run, every stored DCA keeps sitting under an id that the counter has
/// passed.
pub proof fn lemma_run_ids_are_issued(state: StateView, requests: Seq<Request>)
    requires
        ids_are_issued(state),
    ensures
        ids_are_issued(run(state, requests)),
    decreases requests.len(),
{
    if requests.len() > 0 {
        lemma_run_ids_are_issued(state, requests.drop_last());
        theorem_ids_are_not_reused(run(state, requests.drop_last()), requests.last());
    }
}

/// Every creation takes an id that is free. In a run that starts where every
/// stored DCA sits under an id that the counter has passed, as in an app without
/// DCAs, the id that a creation reports was not in use just before it.
pub proof fn theorem_created_ids_are_fresh(state: StateView, requests: Seq<Request>, i: int)
    requires
        ids_are_issued(state),
        0 <= i < requests.len(),
        creates_at(state, requests, i),
    ensures
        !run(state, requests.take(i)).dca_list.contains_key(
            reported_id(outcome_at(state, requests, i).result->Ok_0),
        ),
        outcome_at(state, requests, i).state.dca_list.contains_key(
            reported_id(outcome_at(state, requests, i).result->Ok_0),
        ),
{
    lemma_run_ids_are_issued(state, requests.take(i));
    theorem_ids_are_not_reused(run(state, requests.take(i)), requests[i]);
}

/// Only the administrator changes anything. A request other than `Convert` from
/// anybody else fails as unauthorized and leaves the state as it was.
pub proof fn theorem_admin_only(state: StateView, request: Request)
    requires
        !state.is_admin(request.sender),
        !(request.msg is Convert),
    ensures
        step(state, request).result == Err::<ResponseView, AppError>(AppError::Unauthorized),
        step(state, request).state == state,
{
}

/// A conversion goes through for the manager of the DCA's task only. For any
/// other caller it fails, so that no message goes out, and the state stays as it
/// was; where the DCA is stored and the scheduler names a manager, the failure is
/// `NotManagerConvert`. Being the administrator is of no help.
pub proof fn theorem_convert_for_manager_only(
    state: StateView,
    cron_cat: CronCatView,
    contract_addr: Seq<char>,
    sender: Seq<char>,
    dca_id: Seq<char>,
)
    requires
        match cron_cat.task(contract_addr, dca_id) {
            Some(task) => task.manager_addr != sender,
            None => true,
        },
    ensures
        convert_spec(state, cron_cat, contract_addr, sender, dca_id).result is Err,
        convert_spec(state, cron_cat, contract_addr, sender, dca_id).state == state,
        state.dca_list.contains_key(dca_id) && cron_cat.task(contract_addr, dca_id) is Some
            ==> convert_spec(state, cron_cat, contract_addr, sender, dca_id).result == Err::<
            ResponseView,
            AppError,
        >(AppError::NotManagerConvert),
{
}

/// An update that gives a new frequency of at least one block and nothing else
/// keeps the DCA's assets and exchange, and sends exactly two messages: the
/// removal of the DCA's task, then its registration at the new frequency.
pub proof fn theorem_update_frequency_only(
    state: StateView,
    contract_addr: Seq<char>,
    sender: Seq<char>,
    dca_id: Seq<char>,
    blocks: u64,
)
    requires
        state.is_admin(sender),
        state.dca_list.contains_key(dca_id),
        blocks >= 1,
    ensures
        ({
            let frequency = Frequency::EveryNBlocks(blocks);
            let outcome = update_dca_spec(
                state,
                contract_addr,
                sender,
                dca_id,
                None,
                None,
                Some(frequency),
                None,
            );
            let before = state.dca_list[dca_id];
            let after = outcome.state.dca_list[dca_id];
            &&& outcome.result is Ok
            &&& outcome.state.dca_list.contains_key(dca_id)
            &&& after.source_asset == before.source_asset
            &&& after.target_asset == before.target_asset
            &&& after.dex == before.dex
            &&& after.frequency == frequency
            &&& outcome.result->Ok_0.messages.len() == 2
            &&& outcome.result->Ok_0.messages[0] == remove_task_msg(dca_id)
            &&& outcome.result->Ok_0.messages[1] == create_task_msg(
                contract_addr,
                Interval::Block(blocks),
                dca_id,
                state.config,
            )
        }),
{
}

/// An update that gives no frequency sends no message, whatever else it changes.
pub proof fn theorem_update_without_frequency(
    state: StateView,
    contract_addr: Seq<char>,
    sender: Seq<char>,
    dca_id: Seq<char>,
    new_source_asset: Option<Seq<char>>,
    new_target_asset: Option<Seq<char>>,
    new_dex: Option<Seq<char>>,
)
    requires
        state.is_admin(sender),
        state.dca_list.contains_key(dca_id),
    ensures
        ({
            let outcome = update_dca_spec(
                state,
                contract_addr,
                sender,
                dca_id,
                new_source_asset,
                new_target_asset,
                None,
                new_dex,
            );
            &&& outcome.result is Ok
            &&& outcome.result->Ok_0.messages.len() == 0
            &&& outcome.state.dca_list[dca_id].frequency == state.dca_list[dca_id].frequency
        }),
{
}

/// A conversion refills the task exactly when the reported balance is below the
/// threshold, and then before it swaps. In either case the swap comes last and
/// nothing else is sent.
pub proof fn theorem_refill_below_threshold(
    state: StateView,
    cron_cat: CronCatView,
    contract_addr: Seq<char>,
    sender: Seq<char>,
    dca_id: Seq<char>,
)
    requires
        state.dca_list.contains_key(dca_id),
        cron_cat.task(contract_addr, dca_id) is Some,
        cron_cat.task(contract_addr, dca_id)->Some_0.manager_addr == sender,
        cron_cat.task_balance(contract_addr, dca_id) is Ok,
    ensures
        ({
            let outcome = convert_spec(state, cron_cat, contract_addr, sender, dca_id);
            let balance = cron_cat.task_balance(contract_addr, dca_id)->Ok_0;
            let messages = outcome.result->Ok_0.messages;
            &&& outcome.result is Ok
            &&& outcome.state == state
            &&& balance < state.config.refill_threshold ==> {
                &&& messages.len() == 2
                &&& messages[0] == refill_task_msg(state.config, dca_id)
                &&& messages[1] == swap_msg(state.dca_list[dca_id])
            }
            &&& balance >= state.config.refill_threshold ==> {
                &&& messages.len() == 1
                &&& messages[0] == swap_msg(state.dca_list[dca_id])
            }
        }),
{
}

/// A task that the scheduler reports without a balance is not converted: the
/// manager's call fails, nothing is sent and the state stays as it was.
pub proof fn theorem_no_balance_no_conversion(
    state: StateView,
    cron_cat: CronCatView,
    contract_addr: Seq<char>,
    sender: Seq<char>,
    dca_id: Seq<char>,
)
    requires
        state.dca_list.contains_key(dca_id),
        cron_cat.task(contract_addr, dca_id) is Some,
        cron_cat.task(contract_addr, dca_id)->Some_0.manager_addr == sender,
        cron_cat.task(contract_addr, dca_id)->Some_0.native_balance is None,
    ensures
        convert_spec(state, cron_cat, contract_addr, sender, dca_id).result == Err::<
            ResponseView,
            AppError,
        >(AppError::TaskBalanceNotFound),
        convert_spec(state, cron_cat, contract_addr, sender, dca_id).state == state,
{
}

/// A frequency that counts nothing gets nowhere: the administrator's request to
/// create a DCA with it, or to give it to a stored DCA, fails as invalid and
/// leaves the state as it was.
pub proof fn theorem_invalid_frequency_is_refused(state: StateView, request: Request)
    requires
        state.is_admin(request.sender),
        match request.msg {
            AppExecuteMsgView::CreateDCA { frequency, .. } => !frequency.valid(),
            AppExecuteMsgView::UpdateDCA { new_frequency, .. } => new_frequency is Some
                && !new_frequency->Some_0.valid(),
            _ => false,
        },
    ensures
        step(state, request).result == Err::<ResponseView, AppError>(AppError::InvalidFrequency),
        step(state, request).state == state,
{
}

/// Every stored DCA has a valid frequency.
pub open spec fn frequencies_are_valid(state: StateView) -> bool {
    forall|dca_id: Seq<char>| #[trigger]
        state.dca_list.contains_key(dca_id) ==> state.dca_list[dca_id].frequency.valid()
}

/// Whether `msg`, where it registers a task, has it run at an interval of at least
/// one block.
pub open spec fn runs_every_block_or_less_often(msg: AppMsgView) -> bool {
    match msg {
        AppMsgView::CreateTask { task, .. } => match task.interval {
            Interval::Block(blocks) => blocks >= 1,
        },
        _ => true,
    }
}

/// No request gets an invalid frequency stored. Where every stored DCA has a valid
/// frequency, as it is in an app without DCAs, the same holds after any request,
/// and every task that the answer registers runs at an interval of at least one
/// block.
pub proof fn theorem_frequencies_stay_valid(state: StateView, request: Request)
    requires
        frequencies_are_valid(state),
    ensures
        frequencies_are_valid(step(state, request).state),
        forall|i: int|
            0 <= i < sent(step(state, request)).len() ==> runs_every_block_or_less_often(
                #[trigger] sent(step(state, request))[i],
            ),
{
}

/// Cancelling an id that is not in use goes through all the same: the state stays
/// as it was and the removal of the task is still sent.
pub proof fn theorem_cancel_absent(state: StateView, sender: Seq<char>, dca_id: Seq<char>)
    requires
        state.is_admin(sender),
        !state.dca_list.contains_key(dca_id),
    ensures
        cancel_dca_spec(state, sender, dca_id).result is Ok,
        cancel_dca_spec(state, sender, dca_id).result->Ok_0.messages == seq![
            remove_task_msg(dca_id),
        ],
        cancel_dca_spec(state, sender, dca_id).state == state,
{
    assert(state.dca_list.remove(dca_id) =~= state.dca_list);
}

/// Cancelling twice is cancelling once: the second call finds nothing to delete and
/// sends the same removal again.
pub proof fn theorem_cancel_idempotent(state: StateView, sender: Seq<char>, dca_id: Seq<char>)
    requires
        state.is_admin(sender),
    ensures
        ({
            let once = cancel_dca_spec(state, sender, dca_id);
            let twice = cancel_dca_spec(once.state, sender, dca_id);
            &&& !once.state.dca_list.contains_key(dca_id)
            &&& twice.state == once.state
            &&& twice.result == once.result
        }),
{
    let once = cancel_dca_spec(state, sender, dca_id);
    assert(once.state.dca_list.remove(dca_id) =~= once.state.dca_list);
}

/// No request changes the administrator or the configuration.
pub proof fn theorem_settings_stay(state: StateView, request: Request)
    ensures
        step(state, request).state.admin == state.admin,
        step(state, request).state.config == state.config,
{
}

/// Every funding that a request sends to the scheduler, for a new task or for a
/// refill, is the configured amount of the configured coin.
pub proof fn theorem_funds_as_configured(state: StateView, request: Request, i: int)
    requires
        step(state, request).result is Ok,
        0 <= i < step(state, request).result->Ok_0.messages.len(),
    ensures
        match step(state, request).result->Ok_0.messages[i] {
            AppMsgView::CreateTask { assets, .. } => assets == task_funds(state.config),
            AppMsgView::RefillTask { assets, .. } => assets == task_funds(state.config),
            _ => true,
        },
{
}

/// The tasks that a scheduler holds for the app once it has carried out `msg`,
/// having held `tasks` before: a registration puts the task under its tag, a
/// removal takes the tag out whether or not it was in use, and nothing else
/// touches the tasks.
pub open spec fn tasks_after_msg(
    tasks: Map<Seq<char>, TaskRequestView>,
    msg: AppMsgView,
) -> Map<Seq<char>, TaskRequestView> {
    match msg {
        AppMsgView::CreateTask { task, task_tag, .. } => tasks.insert(task_tag, task),
        AppMsgView::RemoveTask { task_tag } => tasks.remove(task_tag),
        _ => tasks,
    }
}

/// The tasks that a scheduler holds for the app once it has carried out
/// `messages` in order, having held `tasks` before.
pub open spec fn tasks_after(
    tasks: Map<Seq<char>, TaskRequestView>,
    messages: Seq<AppMsgView>,
) -> Map<Seq<char>, TaskRequestView>
    decreases messages.len(),
{
    if messages.len() == 0 {
        tasks
    } else {
        tasks_after_msg(tasks_after(tasks, messages.drop_last()), messages.last())
    }
}

/// Carrying out one message, and carrying out two.
proof fn lemma_tasks_after_few(
    tasks: Map<Seq<char>, TaskRequestView>,
    first: AppMsgView,
    second: AppMsgView,
)
    ensures
        tasks_after(tasks, seq![first]) == tasks_after_msg(tasks, first),
        tasks_after(tasks, seq![first, second]) == tasks_after_msg(
            tasks_after_msg(tasks, first),
            second,
        ),
{
    let one = seq![first];
    let two = seq![first, second];
    assert(tasks_after(tasks, one.drop_last()) == tasks);
    assert(two.drop_last() =~= one);
    assert(tasks_after(tasks, two) == tasks_after_msg(tasks_after(tasks, one), second));
}

/// The messages of an answer; none where the request failed.
pub open spec fn sent(outcome: Outcome) -> Seq<AppMsgView> {
    match outcome.result {
        Ok(response) => response.messages,
        Err(_) => Seq::empty(),
    }
}

/// Each stored DCA has its task and each task its DCA: the tags in use are the ids
/// in use, and the task under an id calls the app at `contract_addr` back with
/// `Convert` for that id, at the interval that stands for the DCA's frequency.
pub open spec fn tasks_match_dcas(
    state: StateView,
    tasks: Map<Seq<char>, TaskRequestView>,
    contract_addr: Seq<char>,
) -> bool {
    &&& tasks.dom() == state.dca_list.dom()
    &&& forall|dca_id: Seq<char>| #[trigger]
        state.dca_list.contains_key(dca_id) ==> state.dca_list[dca_id].frequency.interval_spec()
            == Ok::<Interval, AppError>(tasks[dca_id].interval) && tasks[dca_id] == convert_task(
            contract_addr,
            tasks[dca_id].interval,
            dca_id,
        )
}

/// Tasks and DCAs stay paired. Where each stored DCA has its task before a
/// request, and the scheduler carries out what the answer asks of it, each stored
/// DCA has its task afterwards.
pub proof fn theorem_tasks_follow_dcas(
    state: StateView,
    tasks: Map<Seq<char>, TaskRequestView>,
    request: Request,
)
    requires
        tasks_match_dcas(state, tasks, request.contract_addr),
    ensures
        tasks_match_dcas(
            step(state, request).state,
            tasks_after(tasks, sent(step(state, request))),
            request.contract_addr,
        ),
{
    let outcome = step(state, request);
    let messages = sent(outcome);
    let after = tasks_after(tasks, messages);
    // An answer holds no message, one or two: in each case the tasks afterwards
    // are spelled out and compared with the DCAs afterwards.
    if messages.len() == 1 {
        lemma_tasks_after_few(tasks, messages[0], messages[0]);
        assert(messages =~= seq![messages[0]]);
    } else if messages.len() == 2 {
        lemma_tasks_after_few(tasks, messages[0], messages[1]);
        assert(messages =~= seq![messages[0], messages[1]]);
    }
    assert(after.dom() =~= outcome.state.dca_list.dom());
}

/// The tasks that a scheduler holds once the app has handled `requests` one after
/// the other and the scheduler has carried out each answer in turn.
pub open spec fn run_tasks(
    state: StateView,
    tasks: Map<Seq<char>, TaskRequestView>,
    requests: Seq<Request>,
) -> Map<Seq<char>, TaskRequestView>
    decreases requests.len(),
{
    if requests.len() == 0 {
        tasks
    } else {
        tasks_after(
            run_tasks(state, tasks, requests.drop_last()),
            sent(step(run(state, requests.drop_last()), requests.last())),
        )
    }
}

/// Tasks and DCAs are paired for good. Where each stored DCA has its task to
/// begin with, and the app is always addressed as `contract_addr`, each stored
/// DCA has its task after every run of requests.
pub proof fn theorem_run_keeps_tasks_paired(
    state: StateView,
    tasks: Map<Seq<char>, TaskRequestView>,
    requests: Seq<Request>,
    contract_addr: Seq<char>,
)
    requires
        tasks_match_dcas(state, tasks, contract_addr),
        forall|i: int| 0 <= i < requests.len() ==> (#[trigger] requests[i]).contract_addr
            == contract_addr,
    ensures
        tasks_match_dcas(
            run(state, requests),
            run_tasks(state, tasks, requests),
            contract_addr,
        ),
    decreases requests.len(),
{
    if requests.len() > 0 {
        let earlier = requests.drop_last();
        assert forall|i: int| 0 <= i < earlier.len() implies (#[trigger] earlier[i]).contract_addr
            == contract_addr by {
            assert(earlier[i] == requests[i]);
        }
        theorem_run_keeps_tasks_paired(state, tasks, earlier, contract_addr);
        theorem_tasks_follow_dcas(
            run(state, earlier),
            run_tasks(state, tasks, earlier),
            requests.last(),
        );
    }
}

/// An app without DCAs and a scheduler without tasks are paired.
pub proof fn theorem_fresh_app_is_paired(state: StateView, contract_addr: Seq<char>)
    requires
        state.dca_list == Map::<Seq<char>, DCAEntryView>::empty(),
    ensures
        tasks_match_dcas(state, Map::<Seq<char>, TaskRequestView>::empty(), contract_addr),
{
}

} // verus!
