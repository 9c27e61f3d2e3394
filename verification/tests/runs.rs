use std::collections::BTreeMap;

use abstract_dca_app::croncat::{CronCat, TaskInfo, TaskRequest};
use abstract_dca_app::env::{ContractInfo, Env, MessageInfo};
use abstract_dca_app::error::AppError;
use abstract_dca_app::handlers::execute::execute_handler;
use abstract_dca_app::msg::{AppExecuteMsg, Frequency, Interval};
use abstract_dca_app::response::{AppMsg, Response};
use abstract_dca_app::state::{Config, DCAEntry, State};

const OWNER: &str = "owner";
const APP: &str = "app_addr";
const MANAGER: &str = "manager_addr";

/// A scheduler that does what it is asked: it keeps the registered tasks by tag
/// and the balance of each.
struct Scheduler {
    tasks: BTreeMap<String, TaskRequest>,
    balances: BTreeMap<String, u128>,
}

impl Scheduler {
    fn new() -> Scheduler {
        Scheduler { tasks: BTreeMap::new(), balances: BTreeMap::new() }
    }

    fn carry_out(&mut self, response: Response) -> usize {
        let mut swaps = 0;
        for msg in response.messages {
            match msg {
                AppMsg::CreateTask { task, task_tag, assets } => {
                    self.tasks.insert(task_tag.clone(), task);
                    self.balances.insert(task_tag, assets.amount);
                }
                AppMsg::RemoveTask { task_tag } => {
                    self.tasks.remove(&task_tag);
                    self.balances.remove(&task_tag);
                }
                AppMsg::RefillTask { task_tag, assets } => {
                    *self.balances.get_mut(&task_tag).unwrap() += assets.amount;
                }
                AppMsg::Swap { .. } => swaps += 1,
            }
        }
        swaps
    }

    fn reports(&self) -> CronCat {
        CronCat::new(
            self.balances
                .iter()
                .map(|(task_tag, native_balance)| TaskInfo {
                    creator_addr: APP.to_owned(),
                    task_tag: task_tag.clone(),
                    manager_addr: MANAGER.to_owned(),
                    native_balance: Some(*native_balance),
                })
                .collect(),
        )
    }

    /// One execution of a task costs the task some of its balance.
    fn charge(&mut self, task_tag: &str, fee: u128) {
        let balance = self.balances.get_mut(task_tag).unwrap();
        *balance -= fee;
    }
}

struct World {
    state: State,
    scheduler: Scheduler,
    /// Every id that any request has named or returned.
    seen: Vec<String>,
}

impl World {
    fn new() -> World {
        World {
            state: State::new(
                Some(OWNER.to_owned()),
                Config {
                    native_denom: "ujuno".to_owned(),
                    dca_creation_amount: 500,
                    refill_threshold: 200,
                },
                0,
            ),
            scheduler: Scheduler::new(),
            seen: vec![],
        }
    }

    fn handle(&mut self, sender: &str, msg: AppExecuteMsg) -> Result<usize, AppError> {
        match &msg {
            AppExecuteMsg::UpdateDCA { dca_id, .. }
            | AppExecuteMsg::CancelDCA { dca_id }
            | AppExecuteMsg::Convert { dca_id } => self.seen.push(dca_id.clone()),
            _ => {}
        }
        let response = execute_handler(
            &mut self.state,
            &self.scheduler.reports(),
            &Env { contract: ContractInfo { address: APP.to_owned() } },
            &MessageInfo { sender: sender.to_owned() },
            msg,
        )?;
        for attribute in &response.attributes {
            self.seen.push(attribute.value.clone());
        }
        Ok(self.scheduler.carry_out(response))
    }

    /// Each stored DCA has its task, each task its DCA, and the task runs at the
    /// DCA's frequency and calls back with the DCA's id.
    fn assert_paired(&self) {
        for dca_id in &self.seen {
            let dca = self.state.may_load(dca_id);
            let task = self.scheduler.tasks.get(dca_id);
            match (dca, task) {
                (None, None) => {}
                (Some(dca), Some(task)) => {
                    assert_eq!(dca.frequency.into_interval(), Ok(task.interval));
                    assert!(task.stop_on_fail);
                    assert_eq!(task.action.contract_addr, APP);
                    assert_eq!(
                        task.action.msg,
                        AppExecuteMsg::Convert { dca_id: dca_id.clone() }
                    );
                    assert_eq!(task.action.gas_limit, Some(300_000));
                    assert_eq!(task.action.funds, vec![]);
                    assert_eq!(task.boundary, None);
                    assert_eq!(task.queries, None);
                    assert_eq!(task.transforms, None);
                    assert_eq!(task.cw20, None);
                    assert!(dca.frequency.is_valid());
                }
                (dca, task) => panic!("{dca_id}: stored {dca:?}, registered {task:?}"),
            }
        }
        for task_tag in self.scheduler.tasks.keys() {
            assert!(self.state.has(task_tag));
        }
    }
}

fn create(blocks: u64) -> AppExecuteMsg {
    AppExecuteMsg::CreateDCA {
        source_asset: "eur".to_owned(),
        target_asset: "usd".to_owned(),
        frequency: Frequency::EveryNBlocks(blocks),
        dex: "wyndex".to_owned(),
    }
}

fn update(dca_id: &str, new_frequency: Option<Frequency>, new_dex: Option<&str>) -> AppExecuteMsg {
    AppExecuteMsg::UpdateDCA {
        dca_id: dca_id.to_owned(),
        new_source_asset: None,
        new_target_asset: None,
        new_frequency,
        new_dex: new_dex.map(str::to_owned),
    }
}

fn cancel(dca_id: &str) -> AppExecuteMsg {
    AppExecuteMsg::CancelDCA { dca_id: dca_id.to_owned() }
}

fn convert(dca_id: &str) -> AppExecuteMsg {
    AppExecuteMsg::Convert { dca_id: dca_id.to_owned() }
}

#[test]
fn tasks_and_dcas_stay_paired_through_a_run() {
    let mut world = World::new();
    let requests: Vec<(&str, AppExecuteMsg)> = vec![
        (OWNER, create(1)),
        (OWNER, create(2)),
        ("mallory", create(3)),
        (OWNER, create(4)),
        (OWNER, update("dca_2", Some(Frequency::EveryNBlocks(20)), None)),
        (OWNER, update("dca_1", None, Some("osmosis"))),
        (OWNER, update("dca_3", Some(Frequency::EveryNSeconds(5)), None)),
        (OWNER, update("dca_9", Some(Frequency::EveryNBlocks(5)), None)),
        (OWNER, create(0)),
        (OWNER, update("dca_2", Some(Frequency::EveryNBlocks(0)), Some("osmosis"))),
        (MANAGER, convert("dca_1")),
        (OWNER, cancel("dca_1")),
        (OWNER, cancel("dca_1")),
        (OWNER, cancel("dca_7")),
        ("mallory", cancel("dca_2")),
        (MANAGER, convert("dca_1")),
        (OWNER, AppExecuteMsg::UpdateConfig {}),
        (OWNER, create(5)),
        (OWNER, update("dca_4", Some(Frequency::EveryNBlocks(5)), Some("astroport"))),
        (MANAGER, convert("dca_4")),
    ];
    for (sender, msg) in requests {
        let _ = world.handle(sender, msg);
        world.assert_paired();
    }
    assert_eq!(
        world.scheduler.tasks.keys().cloned().collect::<Vec<_>>(),
        vec!["dca_2".to_owned(), "dca_3".to_owned(), "dca_4".to_owned()]
    );
    assert_eq!(world.scheduler.tasks["dca_2"].interval, Interval::Block(20));
    assert_eq!(world.scheduler.tasks["dca_3"].interval, Interval::Block(4));
    assert_eq!(world.scheduler.tasks["dca_4"].interval, Interval::Block(5));
    assert_eq!(
        world.state.load(&"dca_4".to_owned()),
        Ok(DCAEntry {
            source_asset: "eur".to_owned(),
            target_asset: "usd".to_owned(),
            frequency: Frequency::EveryNBlocks(5),
            dex: "astroport".to_owned(),
        })
    );
    assert_eq!(world.state.next_id(), 4);
}

#[test]
fn a_task_is_refilled_once_its_balance_falls_below_the_threshold() {
    let mut world = World::new();
    world.handle(OWNER, create(1)).unwrap();
    assert_eq!(world.scheduler.balances["dca_1"], 500);

    // 500, 400, 300, 200: enough, one swap each time and no refill.
    for round in 0..4u128 {
        assert_eq!(world.scheduler.balances["dca_1"], 500 - 100 * round);
        assert_eq!(world.handle(MANAGER, convert("dca_1")), Ok(1));
        assert_eq!(world.scheduler.balances["dca_1"], 500 - 100 * round);
        if round < 3 {
            world.scheduler.charge("dca_1", 100);
        }
    }
    // 199 is below the threshold of 200: the conversion tops the task up by 500.
    world.scheduler.charge("dca_1", 1);
    assert_eq!(world.handle(MANAGER, convert("dca_1")), Ok(1));
    assert_eq!(world.scheduler.balances["dca_1"], 699);
    assert_eq!(world.handle(MANAGER, convert("dca_1")), Ok(1));
    assert_eq!(world.scheduler.balances["dca_1"], 699);
}

#[test]
fn failed_requests_leave_no_trace() {
    let mut world = World::new();
    world.handle(OWNER, create(1)).unwrap();
    let failing: Vec<(&str, AppExecuteMsg, AppError)> = vec![
        ("mallory", create(1), AppError::Unauthorized),
        ("mallory", AppExecuteMsg::UpdateConfig {}, AppError::Unauthorized),
        (MANAGER, cancel("dca_1"), AppError::Unauthorized),
        (MANAGER, update("dca_1", None, Some("x")), AppError::Unauthorized),
        (OWNER, update("dca_2", None, Some("x")), AppError::DcaNotFound),
        (
            OWNER,
            update("dca_1", Some(Frequency::EveryNSeconds(1)), Some("x")),
            AppError::UnsupportedFrequency,
        ),
        (
            OWNER,
            AppExecuteMsg::CreateDCA {
                source_asset: "eur".to_owned(),
                target_asset: "usd".to_owned(),
                frequency: Frequency::EveryNSeconds(9),
                dex: "wyndex".to_owned(),
            },
            AppError::UnsupportedFrequency,
        ),
        (OWNER, create(0), AppError::InvalidFrequency),
        (
            OWNER,
            update("dca_1", Some(Frequency::EveryNBlocks(0)), Some("x")),
            AppError::InvalidFrequency,
        ),
        (
            OWNER,
            update("dca_1", Some(Frequency::EveryNSeconds(0)), None),
            AppError::InvalidFrequency,
        ),
        (OWNER, convert("dca_1"), AppError::NotManagerConvert),
        (MANAGER, convert("dca_2"), AppError::DcaNotFound),
    ];
    for (sender, msg, error) in failing {
        assert_eq!(world.handle(sender, msg), Err(error));
        assert_eq!(world.state.next_id(), 1);
        assert_eq!(
            world.state.load(&"dca_1".to_owned()),
            Ok(DCAEntry {
                source_asset: "eur".to_owned(),
                target_asset: "usd".to_owned(),
                frequency: Frequency::EveryNBlocks(1),
                dex: "wyndex".to_owned(),
            })
        );
        assert!(!world.state.has(&"dca_2".to_owned()));
        assert_eq!(world.scheduler.tasks.len(), 1);
        assert_eq!(world.scheduler.balances["dca_1"], 500);
    }
}

#[test]
fn store_update_stores_what_the_action_makes() {
    let mut state = State::new(None, Config {
        native_denom: "ujuno".to_owned(),
        dca_creation_amount: 500,
        refill_threshold: 200,
    }, 0);
    let first = DCAEntry {
        source_asset: "eur".to_owned(),
        target_asset: "usd".to_owned(),
        frequency: Frequency::EveryNBlocks(1),
        dex: "wyndex".to_owned(),
    };
    // Nothing is stored yet: the action is asked with `None` and may still store one.
    let made = state.update("dca_1".to_owned(), |dca| {
        assert_eq!(dca, None);
        Ok(first.clone())
    });
    assert_eq!(made, Ok(first.clone()));
    assert_eq!(state.load(&"dca_1".to_owned()), Ok(first.clone()));

    let made = state.update("dca_1".to_owned(), |dca| {
        let mut dca = dca.ok_or(AppError::DcaNotFound)?;
        dca.dex = "osmosis".to_owned();
        Ok(dca)
    });
    let second = DCAEntry { dex: "osmosis".to_owned(), ..first.clone() };
    assert_eq!(made, Ok(second.clone()));
    assert_eq!(state.load(&"dca_1".to_owned()), Ok(second.clone()));

    // A failing action stores nothing and its error comes back.
    let made = state.update("dca_1".to_owned(), |_| Err(AppError::UnsupportedFrequency));
    assert_eq!(made, Err(AppError::UnsupportedFrequency));
    assert_eq!(state.load(&"dca_1".to_owned()), Ok(second));
    let made = state.update("dca_2".to_owned(), |dca| dca.ok_or(AppError::DcaNotFound));
    assert_eq!(made, Err(AppError::DcaNotFound));
    assert!(!state.has(&"dca_2".to_owned()));
}
