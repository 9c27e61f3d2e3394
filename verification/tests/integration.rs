use abstract_dca_app::croncat::{Asset, CronCat, TaskAction, TaskInfo, TaskRequest};
use abstract_dca_app::dex::{Decimal, OfferAsset};
use abstract_dca_app::env::{ContractInfo, Env, MessageInfo};
use abstract_dca_app::handlers::execute::execute_handler;
use abstract_dca_app::handlers::instantiate::instantiate_handler;
use abstract_dca_app::handlers::query::query_handler;
use abstract_dca_app::msg::{
    AppExecuteMsg, AppInstantiateMsg, AppQueryMsg, ConfigResponse, Frequency, Interval,
    QueryResponse,
};
use abstract_dca_app::response::{AppMsg, Attribute};
use abstract_dca_app::state::{Config, State};

// consts for testing
const ADMIN: &str = "admin";
const WYNDEX_WITHOUT_CHAIN: &str = "wyndex";
const DENOM: &str = "atom";
const EUR: &str = "eur";
const USD: &str = "usd";
const DCA_APP: &str = "dca_app";
const CRONCAT_MANAGER: &str = "croncat_manager";

/// Set up the app as it is after its installation
fn setup() -> (State, Env, MessageInfo, String) {
    let state = instantiate_handler(
        Some(ADMIN.to_owned()),
        AppInstantiateMsg {
            native_denom: DENOM.to_owned(),
            dca_creation_amount: 5_000_000,
            refill_threshold: 1_000_000,
        },
    );
    let env = Env { contract: ContractInfo { address: DCA_APP.to_owned() } };
    let info = MessageInfo { sender: ADMIN.to_owned() };
    (state, env, info, CRONCAT_MANAGER.to_owned())
}

#[test]
fn successful_install() {
    // Set up the app and its surroundings
    let (mut state, env, mut info, manager_addr) = setup();

    let config = match query_handler(&state, AppQueryMsg::Config {}) {
        QueryResponse::Config(config) => config,
        other => panic!("unexpected answer: {:?}", other),
    };
    assert_eq!(
        config,
        ConfigResponse {
            config: Config {
                native_denom: DENOM.to_owned(),
                dca_creation_amount: 5_000_000,
                refill_threshold: 1_000_000
            }
        }
    );
    let created = execute_handler(
        &mut state,
        &CronCat::new(vec![]),
        &env,
        &info,
        AppExecuteMsg::CreateDCA {
            source_asset: EUR.to_owned(),
            target_asset: USD.to_owned(),
            frequency: Frequency::EveryNBlocks(1),
            dex: WYNDEX_WITHOUT_CHAIN.to_owned(),
        },
    )
    .unwrap();
    assert_eq!(
        created.attributes,
        vec![Attribute { key: "dca_id".to_owned(), value: "dca_1".to_owned() }]
    );

    // Only manager should be able to execute this one
    info.sender = manager_addr.clone();
    // The scheduler funded the task with the creation amount and nothing was spent.
    let cron_cat = CronCat::new(vec![TaskInfo {
        creator_addr: DCA_APP.to_owned(),
        task_tag: "dca_1".to_owned(),
        manager_addr,
        native_balance: Some(5_000_000),
    }]);

    let converted = execute_handler(
        &mut state,
        &cron_cat,
        &env,
        &info,
        AppExecuteMsg::Convert { dca_id: "dca_1".to_owned() },
    )
    .unwrap();

    // The account held 10_000 EUR; what leaves it is what the one swap offers.
    assert_eq!(
        converted.messages,
        vec![AppMsg::Swap {
            dex: WYNDEX_WITHOUT_CHAIN.to_owned(),
            offer_asset: OfferAsset { name: EUR.to_owned(), amount: 100 },
            ask_asset: USD.to_owned(),
            max_spread: Some(Decimal { atomics: 300_000_000_000_000_000 }),
            belief_price: None,
        }]
    );
    let offered = match &converted.messages[0] {
        AppMsg::Swap { offer_asset, .. } => offer_asset.amount,
        other => panic!("unexpected message: {:?}", other),
    };
    let eur_balance = 10_000 - offered;
    assert_eq!(eur_balance, 9900);
}

#[test]
fn create_then_convert_below_threshold() {
    let mut state = instantiate_handler(
        Some(ADMIN.to_owned()),
        AppInstantiateMsg {
            native_denom: "u".to_owned(),
            dca_creation_amount: 5_000_000,
            refill_threshold: 1_000_000,
        },
    );
    let env = Env { contract: ContractInfo { address: DCA_APP.to_owned() } };
    let admin = MessageInfo { sender: ADMIN.to_owned() };

    let created = execute_handler(
        &mut state,
        &CronCat::new(vec![]),
        &env,
        &admin,
        AppExecuteMsg::CreateDCA {
            source_asset: "EUR".to_owned(),
            target_asset: "USD".to_owned(),
            frequency: Frequency::EveryNBlocks(1),
            dex: "dex1".to_owned(),
        },
    )
    .unwrap();
    assert_eq!(created.action, "create_dca");
    assert_eq!(
        created.attributes,
        vec![Attribute { key: "dca_id".to_owned(), value: "dca_1".to_owned() }]
    );
    assert_eq!(
        created.messages,
        vec![AppMsg::CreateTask {
            task: TaskRequest {
                interval: Interval::Block(1),
                boundary: None,
                stop_on_fail: true,
                action: TaskAction {
                    contract_addr: DCA_APP.to_owned(),
                    msg: AppExecuteMsg::Convert { dca_id: "dca_1".to_owned() },
                    funds: vec![],
                    gas_limit: Some(300_000),
                },
                queries: None,
                transforms: None,
                cw20: None,
            },
            task_tag: "dca_1".to_owned(),
            assets: Asset { denom: "u".to_owned(), amount: 5_000_000 },
        }]
    );

    let executor = MessageInfo { sender: CRONCAT_MANAGER.to_owned() };
    let cron_cat = CronCat::new(vec![TaskInfo {
        creator_addr: DCA_APP.to_owned(),
        task_tag: "dca_1".to_owned(),
        manager_addr: CRONCAT_MANAGER.to_owned(),
        native_balance: Some(900_000),
    }]);
    let converted = execute_handler(
        &mut state,
        &cron_cat,
        &env,
        &executor,
        AppExecuteMsg::Convert { dca_id: "dca_1".to_owned() },
    )
    .unwrap();
    assert_eq!(converted.action, "convert");
    assert_eq!(
        converted.messages,
        vec![
            AppMsg::RefillTask {
                task_tag: "dca_1".to_owned(),
                assets: Asset { denom: "u".to_owned(), amount: 5_000_000 },
            },
            AppMsg::Swap {
                dex: "dex1".to_owned(),
                offer_asset: OfferAsset { name: "EUR".to_owned(), amount: 100 },
                ask_asset: "USD".to_owned(),
                max_spread: Some(Decimal { atomics: 300_000_000_000_000_000 }),
                belief_price: None,
            },
        ]
    );
}
