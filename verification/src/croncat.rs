//! The app's side of its dealings with the task scheduler: the requests it can make
//! and the answers it reads. Nothing here is stored and nobody is authorised here.

use vstd::prelude::*;

use crate::error::AppError;
use crate::msg::{AppExecuteMsg, AppExecuteMsgView, Interval};
use crate::response::{AppMsg, AppMsgView};

verus! {

/// An amount of a native coin.
#[derive(Debug, PartialEq, Eq)]
pub struct Asset {
    pub denom: String,
    pub amount: u128,
}

/// An [`Asset`] with its text as a character sequence.
pub struct AssetView {
    pub denom: Seq<char>,
    pub amount: u128,
}

impl View for Asset {
    type V = AssetView;

    open spec fn view(&self) -> AssetView {
        AssetView { denom: self.denom@, amount: self.amount }
    }
}

/// The assets as contracts see them.
pub open spec fn assets_view(assets: Vec<Asset>) -> Seq<AssetView> {
    assets@.map_values(|asset: Asset| asset@)
}

/// What a task does when it runs: one call of the contract at `contract_addr`.
#[derive(Debug, PartialEq, Eq)]
pub struct TaskAction {
    /// The contract that is called.
    pub contract_addr: String,
    /// The message it is called with.
    pub msg: AppExecuteMsg,
    /// The coins sent along with the call.
    pub funds: Vec<Asset>,
    /// The gas set aside for the call.
    pub gas_limit: Option<u64>,
}

/// A [`TaskAction`] with its texts as character sequences.
pub struct TaskActionView {
    pub contract_addr: Seq<char>,
    pub msg: AppExecuteMsgView,
    pub funds: Seq<AssetView>,
    pub gas_limit: Option<u64>,
}

impl View for TaskAction {
    type V = TaskActionView;

    open spec fn view(&self) -> TaskActionView {
        TaskActionView {
            contract_addr: self.contract_addr@,
            msg: self.msg@,
            funds: assets_view(self.funds),
            gas_limit: self.gas_limit,
        }
    }
}

/// The span in which a task runs: block heights, or times in nanoseconds since
/// the epoch. An end that is left open is no end.
#[derive(Clone, Copy, Debug, PartialEq, Eq, Structural)]
pub enum Boundary {
    Height { start: Option<u64>, end: Option<u64> },
    Time { start: Option<u64>, end: Option<u64> },
}

/// A question that the scheduler puts to the contract at `contract_addr` before
/// it runs a task.
#[derive(Debug, PartialEq, Eq)]
pub struct TaskQuery {
    /// The contract that is asked.
    pub contract_addr: String,
    /// The question, encoded.
    pub msg: Vec<u8>,
    /// Whether the answer decides if the task runs.
    pub check_result: bool,
}

/// A [`TaskQuery`] with its text as a character sequence.
pub struct TaskQueryView {
    pub contract_addr: Seq<char>,
    pub msg: Seq<u8>,
    pub check_result: bool,
}

impl View for TaskQuery {
    type V = TaskQueryView;

    open spec fn view(&self) -> TaskQueryView {
        TaskQueryView {
            contract_addr: self.contract_addr@,
            msg: self.msg@,
            check_result: self.check_result,
        }
    }
}

/// One step on the way to a value inside a message: into a field or to a position.
#[derive(Debug, PartialEq, Eq)]
pub enum ValueIndex {
    Key(String),
    Index(u64),
}

/// A [`ValueIndex`] with its text as a character sequence.
pub enum ValueIndexView {
    Key(Seq<char>),
    Index(u64),
}

impl View for ValueIndex {
    type V = ValueIndexView;

    open spec fn view(&self) -> ValueIndexView {
        match *self {
            ValueIndex::Key(key) => ValueIndexView::Key(key@),
            ValueIndex::Index(index) => ValueIndexView::Index(index),
        }
    }
}

/// The path as contracts see it.
pub open spec fn path_view(path: Vec<ValueIndex>) -> Seq<ValueIndexView> {
    path@.map_values(|step: ValueIndex| step@)
}

/// Puts a value from the answer to a query into an action before the action runs.
#[derive(Debug, PartialEq, Eq)]
pub struct Transform {
    /// The action that is changed, counted from 0.
    pub action_idx: u64,
    /// The query whose answer gives the value, counted from 0.
    pub query_idx: u64,
    /// Where in the action's message the value goes.
    pub action_path: Vec<ValueIndex>,
    /// Where in the query's answer the value is found.
    pub query_response_path: Vec<ValueIndex>,
}

/// A [`Transform`] with its texts as character sequences.
pub struct TransformView {
    pub action_idx: u64,
    pub query_idx: u64,
    pub action_path: Seq<ValueIndexView>,
    pub query_response_path: Seq<ValueIndexView>,
}

impl View for Transform {
    type V = TransformView;

    open spec fn view(&self) -> TransformView {
        TransformView {
            action_idx: self.action_idx,
            query_idx: self.query_idx,
            action_path: path_view(self.action_path),
            query_response_path: path_view(self.query_response_path),
        }
    }
}

/// An amount of the token that the contract at `address` keeps.
#[derive(Debug, PartialEq, Eq)]
pub struct Cw20Coin {
    pub address: String,
    pub amount: u128,
}

/// A [`Cw20Coin`] with its text as a character sequence.
pub struct Cw20CoinView {
    pub address: Seq<char>,
    pub amount: u128,
}

impl View for Cw20Coin {
    type V = Cw20CoinView;

    open spec fn view(&self) -> Cw20CoinView {
        Cw20CoinView { address: self.address@, amount: self.amount }
    }
}

/// A recurring task as the scheduler is asked to run it.
#[derive(Debug, PartialEq, Eq)]
pub struct TaskRequest {
    /// How the executions are spaced.
    pub interval: Interval,
    /// The span in which the task runs; without one it runs from now on and for
    /// good.
    pub boundary: Option<Boundary>,
    /// Whether the scheduler drops the task once an execution fails.
    pub stop_on_fail: bool,
    /// The task's single action.
    pub action: TaskAction,
    /// What the scheduler asks before it runs the task, if anything.
    pub queries: Option<Vec<TaskQuery>>,
    /// What the scheduler puts into the action from the answers, if anything.
    pub transforms: Option<Vec<Transform>>,
    /// Tokens attached to the task besides its funding in coins, if any.
    pub cw20: Option<Cw20Coin>,
}

/// A [`TaskRequest`] with its texts as character sequences.
pub struct TaskRequestView {
    pub interval: Interval,
    pub boundary: Option<Boundary>,
    pub stop_on_fail: bool,
    pub action: TaskActionView,
    pub queries: Option<Seq<TaskQueryView>>,
    pub transforms: Option<Seq<TransformView>>,
    pub cw20: Option<Cw20CoinView>,
}

impl View for TaskRequest {
    type V = TaskRequestView;

    open spec fn view(&self) -> TaskRequestView {
        TaskRequestView {
            interval: self.interval,
            boundary: self.boundary,
            stop_on_fail: self.stop_on_fail,
            action: self.action@,
            queries: match self.queries {
                Some(queries) => Some(queries@.map_values(|query: TaskQuery| query@)),
                None => None,
            },
            transforms: match self.transforms {
                Some(transforms) => Some(
                    transforms@.map_values(|transform: Transform| transform@),
                ),
                None => None,
            },
            cw20: match self.cw20 {
                Some(coin) => Some(coin@),
                None => None,
            },
        }
    }
}

/// What the scheduler reports of one task.
#[derive(Debug, PartialEq, Eq)]
pub struct TaskInfo {
    /// The contract that registered the task.
    pub creator_addr: String,
    /// The tag the task was registered under.
    pub task_tag: String,
    /// The only address allowed to trigger the task's action.
    pub manager_addr: String,
    /// What is left of the task's funding, in the native coin; `None` where the
    /// scheduler reports the task without a balance.
    pub native_balance: Option<u128>,
}

/// A [`TaskInfo`] with its texts as character sequences.
pub struct TaskInfoView {
    pub creator_addr: Seq<char>,
    pub task_tag: Seq<char>,
    pub manager_addr: Seq<char>,
    pub native_balance: Option<u128>,
}

impl View for TaskInfo {
    type V = TaskInfoView;

    open spec fn view(&self) -> TaskInfoView {
        TaskInfoView {
            creator_addr: self.creator_addr@,
            task_tag: self.task_tag@,
            manager_addr: self.manager_addr@,
            native_balance: self.native_balance,
        }
    }
}

/// The first of `tasks` that `creator_addr` registered under `task_tag`.
pub open spec fn find_task(
    tasks: Seq<TaskInfoView>,
    creator_addr: Seq<char>,
    task_tag: Seq<char>,
) -> Option<TaskInfoView>
    decreases tasks.len(),
{
    if tasks.len() == 0 {
        None
    } else if tasks.first().creator_addr == creator_addr && tasks.first().task_tag == task_tag {
        Some(tasks.first())
    } else {
        find_task(tasks.drop_first(), creator_addr, task_tag)
    }
}

/// The scheduler's answers, as they were read for the request at hand.
#[derive(Debug, PartialEq, Eq)]
pub struct CronCat {
    /// The tasks that were asked about. Where two reports speak of one task, the
    /// first counts.
    pub tasks: Vec<TaskInfo>,
}

/// A [`CronCat`] with its texts as character sequences.
pub struct CronCatView {
    pub tasks: Seq<TaskInfoView>,
}

impl View for CronCat {
    type V = CronCatView;

    open spec fn view(&self) -> CronCatView {
        CronCatView { tasks: self.tasks@.map_values(|task: TaskInfo| task@) }
    }
}

impl CronCatView {
    /// The report on the task that `creator_addr` registered under `task_tag`.
    pub open spec fn task(self, creator_addr: Seq<char>, task_tag: Seq<char>) -> Option<
        TaskInfoView,
    > {
        find_task(self.tasks, creator_addr, task_tag)
    }

    /// The funding left to the task that `creator_addr` registered under
    /// `task_tag`, or the reason why it is not known.
    pub open spec fn task_balance(self, creator_addr: Seq<char>, task_tag: Seq<char>) -> Result<
        u128,
        AppError,
    > {
        match self.task(creator_addr, task_tag) {
            None => Err(AppError::TaskNotFound),
            Some(task) => match task.native_balance {
                Some(native_balance) => Ok(native_balance),
                None => Err(AppError::TaskBalanceNotFound),
            },
        }
    }
}

impl CronCat {
    /// The answers that `tasks` hold.
    pub fn new(tasks: Vec<TaskInfo>) -> (cron_cat: CronCat)
        ensures
            cron_cat.tasks == tasks,
    {
        CronCat { tasks }
    }

    /// The report on the task that `creator_addr` registered under `task_tag`.
    fn find(&self, creator_addr: &String, task_tag: &String) -> (found: Option<&TaskInfo>)
        ensures
            match found {
                Some(task) => self@.task(creator_addr@, task_tag@) == Some(task@),
                None => self@.task(creator_addr@, task_tag@) is None,
            },
    {
        let ghost tasks = self@.tasks;
        let mut i: usize = 0;
        assert(tasks.skip(0) =~= tasks);
        while i < self.tasks.len()
            invariant
                i <= self.tasks.len(),
                tasks == self@.tasks,
                find_task(tasks, creator_addr@, task_tag@) == find_task(
                    tasks.skip(i as int),
                    creator_addr@,
                    task_tag@,
                ),
            decreases self.tasks.len() - i,
        {
            let task = &self.tasks[i];
            assert(tasks.skip(i as int).drop_first() =~= tasks.skip(i + 1));
            if task.creator_addr == *creator_addr && task.task_tag == *task_tag {
                return Some(task);
            }
            i += 1;
        }
        None
    }

    /// The address allowed to trigger the task that `creator_addr` registered under
    /// `task_tag`; fails where the scheduler reports no such task.
    pub fn query_manager_addr(&self, creator_addr: &String, task_tag: &String) -> (outcome:
        Result<String, AppError>)
        ensures
            match (outcome, self@.task(creator_addr@, task_tag@)) {
                (Ok(manager_addr), Some(task)) => manager_addr@ == task.manager_addr,
                (Err(e), None) => e == AppError::TaskNotFound,
                _ => false,
            },
    {
        match self.find(creator_addr, task_tag) {
            Some(task) => Ok(task.manager_addr.clone()),
            None => Err(AppError::TaskNotFound),
        }
    }

    /// The funding left to the task that `creator_addr` registered under `task_tag`;
    /// fails where the scheduler reports no such task, or reports it without a
    /// balance.
    pub fn query_task_balance(&self, creator_addr: &String, task_tag: &String) -> (outcome:
        Result<u128, AppError>)
        ensures
            outcome == self@.task_balance(creator_addr@, task_tag@),
    {
        match self.find(creator_addr, task_tag) {
            Some(task) => match task.native_balance {
                Some(native_balance) => Ok(native_balance),
                None => Err(AppError::TaskBalanceNotFound),
            },
            None => Err(AppError::TaskNotFound),
        }
    }
}

/// The request to register `task` under `task_tag`, funded with `assets`.
pub fn create_task(task: TaskRequest, task_tag: String, assets: Asset) -> (msg: AppMsg)
    ensures
        msg@ == (AppMsgView::CreateTask { task: task@, task_tag: task_tag@, assets: assets@ }),
{
    AppMsg::CreateTask { task, task_tag, assets }
}

/// The request to drop the task registered under `task_tag`. The scheduler is left to
/// deal with a tag it does not know.
pub fn remove_task(task_tag: String) -> (msg: AppMsg)
    ensures
        msg@ == (AppMsgView::RemoveTask { task_tag: task_tag@ }),
{
    AppMsg::RemoveTask { task_tag }
}

/// The request to add `assets` to the balance of the task registered under `task_tag`.
pub fn refill_task(task_tag: String, assets: Asset) -> (msg: AppMsg)
    ensures
        msg@ == (AppMsgView::RefillTask { task_tag: task_tag@, assets: assets@ }),
{
    AppMsg::RefillTask { task_tag, assets }
}

} // verus!
