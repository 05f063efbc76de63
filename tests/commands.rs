use pusd_connector::abi::U256;
use pusd_connector::contract::{
    change_config, execute, instantiate, migrate, query, register_chain, send_pusd, set_paloma,
    update_gas_fee, update_pusd, update_pusd_manager, update_refund_wallet, update_service_fee,
    update_service_fee_collector, update_withdraw_limit, withdraw_pusd, ContractError,
    ContractStore, CosmosMsg, QueryResponse, Response,
};
use pusd_connector::msg::{
    ExecuteMsg, ExternalExecuteMsg, InstantiateMsg, MigrateMsg, PalomaMsg, QueryMsg,
};
use pusd_connector::state::{ChainSetting, ChainSettingInfo};

const OWNER: &str = "paloma1owner";
const MANAGER: &str = "paloma1manager";
const ADDR: &str = "0x1111111111111111111111111111111111111111";

fn setup() -> ContractStore {
    let (store, _) = instantiate(
        &OWNER.to_string(),
        InstantiateMsg { pusd_manager: MANAGER.to_string() },
    );
    store
}

fn setup_with_chain(chain: &str, job: &str) -> ContractStore {
    let mut store = setup();
    register_chain(
        &mut store,
        &OWNER.to_string(),
        chain.to_string(),
        ChainSetting { job_id: job.to_string() },
    )
    .unwrap();
    store
}

fn u256(n: u128) -> U256 {
    let mut b = [0u8; 32];
    b[16..].copy_from_slice(&n.to_be_bytes());
    U256::from_be_bytes(b)
}

fn hex(s: &str) -> Vec<u8> {
    (0..s.len()).step_by(2).map(|i| u8::from_str_radix(&s[i..i + 2], 16).unwrap()).collect()
}

fn job_of(resp: &Response) -> (String, Vec<u8>) {
    assert_eq!(resp.messages.len(), 1);
    match &resp.messages[0] {
        CosmosMsg::Custom(PalomaMsg::SchedulerMsg { execute_job }) => {
            (execute_job.job_id.clone(), execute_job.payload.clone())
        }
        other => panic!("unexpected message {:?}", other),
    }
}

fn snapshot(store: &ContractStore) -> (QueryResponse, QueryResponse) {
    (query(store, QueryMsg::GetState {}), query(store, QueryMsg::GetChainSettings {}))
}

fn uint_word(n: u128) -> Vec<u8> {
    let mut w = vec![0u8; 16];
    w.extend_from_slice(&n.to_be_bytes());
    w
}

fn address_word() -> Vec<u8> {
    let mut w = vec![0u8; 12];
    w.extend_from_slice(&[0x11u8; 20]);
    w
}

#[test]
fn instantiate_makes_sender_owner() {
    let (store, resp) = instantiate(
        &OWNER.to_string(),
        InstantiateMsg { pusd_manager: MANAGER.to_string() },
    );
    match query(&store, QueryMsg::GetState {}) {
        QueryResponse::State(s) => {
            assert_eq!(s.owner, OWNER);
            assert_eq!(s.pusd_manager, MANAGER);
        }
        other => panic!("unexpected answer {:?}", other),
    }
    assert_eq!(query(&store, QueryMsg::GetChainSettings {}), QueryResponse::ChainSettings(vec![]));
    assert!(resp.messages.is_empty());
    assert_eq!(resp.attributes[0].key, "method");
    assert_eq!(resp.attributes[0].value, "instantiate");
    assert_eq!(resp.attributes[1].value, OWNER);
    assert_eq!(resp.attributes[2].value, MANAGER);
}

#[test]
fn migrate_changes_nothing() {
    let resp = migrate(MigrateMsg {});
    assert!(resp.messages.is_empty());
    assert!(resp.attributes.is_empty());
}

#[test]
fn gas_fee_update_scenario() {
    let store = setup_with_chain("eth-1", "job-42");
    let resp = update_gas_fee(&store, &OWNER.to_string(), "eth-1".to_string(), u256(1000)).unwrap();
    let (job, payload) = job_of(&resp);
    assert_eq!(job, "job-42");
    let mut expected = hex("6e9bc3f6");
    expected.extend_from_slice(&uint_word(1000));
    assert_eq!(payload, expected);
    assert_eq!(payload[34..36], [0x03, 0xe8]);
    assert_eq!(resp.attributes[0].key, "action");
    assert_eq!(resp.attributes[0].value, "update_gas_fee");
}

#[test]
fn change_config_replaces_only_owner() {
    let mut store = setup();
    let resp = change_config(&mut store, &OWNER.to_string(), Some("paloma1new".to_string()), None)
        .unwrap();
    assert_eq!(resp.attributes.len(), 2);
    assert_eq!(resp.attributes[1].key, "new_owner");
    match query(&store, QueryMsg::GetState {}) {
        QueryResponse::State(s) => {
            assert_eq!(s.owner, "paloma1new");
            assert_eq!(s.pusd_manager, MANAGER);
        }
        other => panic!("unexpected answer {:?}", other),
    }
    // the old owner has lost its rights
    assert_eq!(
        change_config(&mut store, &OWNER.to_string(), None, None),
        Err(ContractError::Unauthorized)
    );
}

#[test]
fn change_config_replaces_manager() {
    let mut store = setup();
    change_config(&mut store, &OWNER.to_string(), None, Some("paloma1other".to_string())).unwrap();
    match query(&store, QueryMsg::GetState {}) {
        QueryResponse::State(s) => {
            assert_eq!(s.owner, OWNER);
            assert_eq!(s.pusd_manager, "paloma1other");
        }
        other => panic!("unexpected answer {:?}", other),
    }
}

fn all_commands() -> Vec<ExecuteMsg> {
    let c = || "eth-1".to_string();
    vec![
        ExecuteMsg::RegisterChain {
            chain_id: "bsc-1".to_string(),
            chain_setting: ChainSetting { job_id: "job-7".to_string() },
        },
        ExecuteMsg::SendPusd { chain_id: c(), to: ADDR.to_string(), amount: 5, nonce: 1 },
        ExecuteMsg::WithdrawPusd { chain_id: c(), recipient: ADDR.to_string(), amount: 5 },
        ExecuteMsg::UpdateWithdrawLimit { chain_id: c(), new_withdraw_limit: u256(1) },
        ExecuteMsg::SetPaloma { chain_id: c() },
        ExecuteMsg::UpdateRefundWallet { chain_id: c(), new_refund_wallet: ADDR.to_string() },
        ExecuteMsg::UpdateGasFee { chain_id: c(), new_gas_fee: u256(1) },
        ExecuteMsg::UpdateServiceFeeCollector {
            chain_id: c(),
            new_service_fee_collector: ADDR.to_string(),
        },
        ExecuteMsg::UpdateServiceFee { chain_id: c(), new_service_fee: u256(1) },
        ExecuteMsg::UpdatePusd { chain_id: c(), new_pusd: ADDR.to_string() },
        ExecuteMsg::UpdatePusdManager { chain_id: c(), new_pusd_manager: ADDR.to_string() },
        ExecuteMsg::ChangeConfig { owner: Some("x".to_string()), pusd_manager: None },
    ]
}

#[test]
fn strangers_are_refused_and_change_nothing() {
    let mut store = setup_with_chain("eth-1", "job-42");
    let before = snapshot(&store);
    for msg in all_commands() {
        let r = execute(&mut store, &"paloma1mallory".to_string(), msg);
        assert_eq!(r, Err(ContractError::Unauthorized));
        assert_eq!(snapshot(&store), before);
    }
}

#[test]
fn owner_runs_every_command() {
    let mut store = setup_with_chain("eth-1", "job-42");
    for msg in all_commands() {
        assert!(execute(&mut store, &OWNER.to_string(), msg).is_ok());
    }
}

#[test]
fn register_twice_keeps_latest_job() {
    let mut store = setup_with_chain("eth-1", "job-1");
    register_chain(
        &mut store,
        &OWNER.to_string(),
        "eth-1".to_string(),
        ChainSetting { job_id: "job-2".to_string() },
    )
    .unwrap();
    assert_eq!(
        query(&store, QueryMsg::GetChainSettings {}),
        QueryResponse::ChainSettings(vec![ChainSettingInfo {
            chain_id: "eth-1".to_string(),
            job_id: "job-2".to_string()
        }])
    );
    let resp = set_paloma(&store, &OWNER.to_string(), "eth-1".to_string()).unwrap();
    assert_eq!(job_of(&resp).0, "job-2");
}

#[test]
fn register_chain_annotates() {
    let mut store = setup();
    let resp = register_chain(
        &mut store,
        &OWNER.to_string(),
        "eth-1".to_string(),
        ChainSetting { job_id: "job-1".to_string() },
    )
    .unwrap();
    assert!(resp.messages.is_empty());
    assert_eq!(resp.attributes[0].value, "register_chain");
    assert_eq!(resp.attributes[1].key, "chain_id");
    assert_eq!(resp.attributes[1].value, "eth-1");
}

#[test]
fn routes_are_listed_each_once() {
    let mut store = setup_with_chain("c-chain", "job-c");
    for (c, j) in [("a-chain", "job-a"), ("b-chain", "job-b"), ("a-chain", "job-a2")] {
        register_chain(
            &mut store,
            &OWNER.to_string(),
            c.to_string(),
            ChainSetting { job_id: j.to_string() },
        )
        .unwrap();
    }
    let info = |c: &str, j: &str| ChainSettingInfo { chain_id: c.to_string(), job_id: j.to_string() };
    assert_eq!(
        query(&store, QueryMsg::GetChainSettings {}),
        QueryResponse::ChainSettings(vec![
            info("a-chain", "job-a2"),
            info("b-chain", "job-b"),
            info("c-chain", "job-c")
        ])
    );
}

#[test]
fn every_remote_command_has_its_selector() {
    let store = setup_with_chain("eth-1", "job-42");
    let o = OWNER.to_string();
    let c = || "eth-1".to_string();
    let a = || ADDR.to_string();
    let cases: Vec<(Response, &str, Vec<u8>)> = vec![
        (set_paloma(&store, &o, c()).unwrap(), "23fde8e2", vec![]),
        (update_withdraw_limit(&store, &o, c(), u256(7)).unwrap(), "36732f82", uint_word(7)),
        (update_pusd(&store, &o, c(), a()).unwrap(), "41820e3e", address_word()),
        (update_pusd_manager(&store, &o, c(), a()).unwrap(), "ec3a5565", address_word()),
        (update_refund_wallet(&store, &o, c(), a()).unwrap(), "c98856aa", address_word()),
        (update_gas_fee(&store, &o, c(), u256(9)).unwrap(), "6e9bc3f6", uint_word(9)),
        (
            update_service_fee_collector(&store, &o, c(), a()).unwrap(),
            "30e59cbc",
            address_word(),
        ),
        (update_service_fee(&store, &o, c(), u256(11)).unwrap(), "c4ec2ff1", uint_word(11)),
    ];
    for (resp, selector, word) in cases {
        let (job, payload) = job_of(&resp);
        assert_eq!(job, "job-42");
        assert_eq!(payload[..4].to_vec(), hex(selector));
        assert_eq!(payload[4..].to_vec(), word);
    }
}

#[test]
fn unregistered_chain_is_not_found() {
    let store = setup_with_chain("eth-1", "job-42");
    let o = OWNER.to_string();
    let c = || "eth-9".to_string();
    assert_eq!(set_paloma(&store, &o, c()), Err(ContractError::NotFound));
    assert_eq!(update_gas_fee(&store, &o, c(), u256(1)), Err(ContractError::NotFound));
    assert_eq!(update_pusd(&store, &o, c(), ADDR.to_string()), Err(ContractError::NotFound));
    // the route is checked before the argument
    assert_eq!(update_pusd(&store, &o, c(), "zz".to_string()), Err(ContractError::NotFound));
}

#[test]
fn malformed_address_is_invalid() {
    let store = setup_with_chain("eth-1", "job-42");
    let o = OWNER.to_string();
    let c = || "eth-1".to_string();
    let short = "0x11111111111111111111111111111111111111";
    let long = "0x111111111111111111111111111111111111111111";
    let not_hex = "0x111111111111111111111111111111111111111g";
    for bad in [short, long, not_hex, "", "0x"] {
        assert_eq!(
            update_pusd(&store, &o, c(), bad.to_string()),
            Err(ContractError::InvalidArgument)
        );
    }
    assert_eq!(
        update_refund_wallet(&store, &o, c(), short.to_string()),
        Err(ContractError::InvalidArgument)
    );
}

#[test]
fn address_without_prefix_and_in_capitals_is_read() {
    let store = setup_with_chain("eth-1", "job-42");
    let o = OWNER.to_string();
    let text = "ABCDEF0123456789abcdef0123456789ABCDEF01";
    let resp = update_pusd(&store, &o, "eth-1".to_string(), text.to_string()).unwrap();
    let (_, payload) = job_of(&resp);
    let mut word = vec![0u8; 12];
    word.extend_from_slice(&hex("abcdef0123456789abcdef0123456789abcdef01"));
    assert_eq!(payload[4..].to_vec(), word);
}

#[test]
fn send_pusd_builds_transfer() {
    let store = setup();
    let resp = send_pusd(
        &store,
        &OWNER.to_string(),
        "eth-1".to_string(),
        ADDR.to_string(),
        1234,
        77,
    )
    .unwrap();
    assert_eq!(resp.messages.len(), 1);
    match &resp.messages[0] {
        CosmosMsg::Custom(PalomaMsg::SkywayMsg { send_tx: Some(tx), cancel_tx: None }) => {
            assert_eq!(tx.remote_chain_destination_address, ADDR);
            assert_eq!(tx.amount, "1234factory/paloma1manager/upusd");
            assert_eq!(tx.chain_reference_id, "eth-1");
        }
        other => panic!("unexpected message {:?}", other),
    }
    let keys: Vec<&str> = resp.attributes.iter().map(|a| a.key.as_str()).collect();
    assert_eq!(keys, vec!["action", "chain_id", "to", "amount", "nonce"]);
    assert_eq!(resp.attributes[3].value, "1234factory/paloma1manager/upusd");
    assert_eq!(resp.attributes[4].value, "77");
}

#[test]
fn send_pusd_of_zero_and_max() {
    let store = setup();
    let o = OWNER.to_string();
    let resp = send_pusd(&store, &o, "c".to_string(), "t".to_string(), 0, u128::MAX).unwrap();
    assert_eq!(resp.attributes[3].value, "0factory/paloma1manager/upusd");
    assert_eq!(resp.attributes[4].value, u128::MAX.to_string());
}

#[test]
fn withdraw_pusd_calls_manager_with_funds() {
    let store = setup();
    let resp = withdraw_pusd(
        &store,
        &OWNER.to_string(),
        "eth-1".to_string(),
        ADDR.to_string(),
        500,
    )
    .unwrap();
    match &resp.messages[0] {
        CosmosMsg::WasmExecute { contract_addr, msg, funds } => {
            assert_eq!(contract_addr, MANAGER);
            assert_eq!(
                msg,
                &ExternalExecuteMsg::Withdraw {
                    chain_id: "eth-1".to_string(),
                    recipient: ADDR.to_string()
                }
            );
            assert_eq!(funds.len(), 1);
            assert_eq!(funds[0].denom, "factory/paloma1manager/upusd");
            assert_eq!(funds[0].amount, 500);
        }
        other => panic!("unexpected message {:?}", other),
    }
    assert_eq!(resp.attributes[0].value, "withdraw_pusd");
}

#[test]
fn routes_follow_byte_order() {
    let mut store = setup();
    for c in ["eth-1", "Eth-2", "bsc-10", "bsc-1", "é-chain", ""] {
        register_chain(
            &mut store,
            &OWNER.to_string(),
            c.to_string(),
            ChainSetting { job_id: format!("job-{c}") },
        )
        .unwrap();
    }
    let chains: Vec<String> = match query(&store, QueryMsg::GetChainSettings {}) {
        QueryResponse::ChainSettings(v) => v.into_iter().map(|i| i.chain_id).collect(),
        other => panic!("unexpected answer {:?}", other),
    };
    assert_eq!(chains, vec!["", "Eth-2", "bsc-1", "bsc-10", "eth-1", "é-chain"]);
}
