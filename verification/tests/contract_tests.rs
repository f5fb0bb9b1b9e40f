use cosmwasm_std::testing::MockApi;
use cosmwasm_std::Api;

use tokenvault::contract::{
    execute, instantiate, migrate, query, query_config, query_contract_value, swap_asset, tokens,
};
use tokenvault::error::{ContractError, StdError};
use tokenvault::msg::{Coin, ExecuteMsg, MessageInfo, MigrateMsg, OutMsg, QueryAnswer, QueryMsg};
use tokenvault::state::{read_config, store_config, CanonicalAddr, Config, ConfigStorage};

fn addr(bytes: &[u8]) -> CanonicalAddr {
    CanonicalAddr {
        bytes: bytes.to_vec(),
    }
}

fn info(sender: &str, sender_canonical: CanonicalAddr, funds: Vec<Coin>) -> MessageInfo {
    MessageInfo {
        sender: sender.to_string(),
        sender_canonical,
        funds,
    }
}

#[test]
fn load_fails_before_initialize() {
    let storage = ConfigStorage::new();
    match read_config(&storage) {
        Err(StdError::NotFound { kind }) => assert_eq!(kind, "Config"),
        _ => panic!("expected NotFound before initialization"),
    }
}

#[test]
fn initialize_then_load_returns_owner() {
    let mut storage = ConfigStorage::new();
    let res = instantiate(&mut storage, addr(b"owner-canonical")).unwrap();
    assert_eq!(res.messages.len(), 0);
    let config = read_config(&storage).unwrap();
    assert_eq!(config.owner.bytes, b"owner-canonical".to_vec());
}

#[test]
fn store_config_overwrites() {
    let mut storage = ConfigStorage::new();
    store_config(&mut storage, Config { owner: addr(b"a") });
    store_config(&mut storage, Config { owner: addr(b"b") });
    assert_eq!(read_config(&storage).unwrap().owner.bytes, b"b".to_vec());
}

#[test]
fn withdraw_by_non_owner_is_unauthorized() {
    let mut storage = ConfigStorage::new();
    instantiate(&mut storage, addr(b"owner")).unwrap();
    let res = tokens(
        &storage,
        info("mallory", addr(b"not-owner"), vec![]),
        Some(100),
        Some("uusd".to_string()),
    );
    assert!(matches!(res, Err(ContractError::Unauthorized {})));
}

#[test]
fn withdraw_by_owner_succeeds() {
    let mut storage = ConfigStorage::new();
    instantiate(&mut storage, addr(b"owner")).unwrap();
    let res = tokens(
        &storage,
        info("alice", addr(b"owner"), vec![]),
        Some(100),
        Some("uusd".to_string()),
    );
    assert!(res.is_ok());
}

#[test]
fn amount_without_denomination_fails_with_token_err() {
    let mut storage = ConfigStorage::new();
    instantiate(&mut storage, addr(b"owner")).unwrap();
    for amount in [1u128, 100, u128::MAX] {
        let res = tokens(
            &storage,
            info("alice", addr(b"owner"), vec![]),
            Some(amount),
            None,
        );
        match res {
            Err(ContractError::TokenErr { denom }) => assert_eq!(denom, "token"),
            _ => panic!("expected TokenErr"),
        }
    }
}

#[test]
fn amount_without_denomination_never_succeeds_for_any_caller() {
    let mut storage = ConfigStorage::new();
    instantiate(&mut storage, addr(b"owner")).unwrap();
    let res = tokens(
        &storage,
        info("mallory", addr(b"not-owner"), vec![]),
        Some(5),
        None,
    );
    assert!(res.is_err());
}

#[test]
fn withdraw_without_amount_is_a_noop() {
    let mut storage = ConfigStorage::new();
    instantiate(&mut storage, addr(b"owner")).unwrap();
    for denom in [None, Some("uusd".to_string())] {
        let res = tokens(&storage, info("alice", addr(b"owner"), vec![]), None, denom).unwrap();
        assert_eq!(res.messages.len(), 0);
    }
}

#[test]
fn withdraw_emits_exactly_one_transfer_to_the_caller() {
    let mut storage = ConfigStorage::new();
    instantiate(&mut storage, addr(b"owner")).unwrap();
    let res = tokens(
        &storage,
        info("alice", addr(b"owner"), vec![]),
        Some(100),
        Some("uusd".to_string()),
    )
    .unwrap();
    assert_eq!(res.messages.len(), 1);
    match &res.messages[0] {
        OutMsg::BankSend { to_address, amount } => {
            assert_eq!(to_address, "alice");
            assert_eq!(amount.len(), 1);
            assert_eq!(amount[0].denom, "uusd");
            assert_eq!(amount[0].amount, 100);
        }
        _ => panic!("expected a bank transfer"),
    }
    // The stored state is untouched.
    assert_eq!(read_config(&storage).unwrap().owner.bytes, b"owner".to_vec());
}

#[test]
fn withdraw_before_initialize_surfaces_storage_error() {
    let storage = ConfigStorage::new();
    let res = tokens(
        &storage,
        info("alice", addr(b"owner"), vec![]),
        None,
        None,
    );
    assert!(matches!(
        res,
        Err(ContractError::Std(StdError::NotFound { .. }))
    ));
}

#[test]
fn swap_emits_exactly_one_venue_call() {
    let funds = vec![Coin {
        denom: "uluna".to_string(),
        amount: 7,
    }];
    let res = swap_asset(
        info("anyone", addr(b"not-owner"), funds),
        "venueX".to_string(),
        50,
        "uusd".to_string(),
    )
    .unwrap();
    assert_eq!(res.messages.len(), 1);
    match &res.messages[0] {
        OutMsg::WasmExecute {
            contract_addr,
            msg,
            funds,
        } => {
            assert_eq!(contract_addr, "venueX");
            assert_eq!(funds.len(), 1);
            assert_eq!(funds[0].denom, "uluna");
            assert_eq!(funds[0].amount, 7);
            // The encoded call must be the venue interface's own encoding of
            // a swap offering 50 uusd with no belief price, no max spread,
            // no recipient and no deadline.
            let expected = cosmwasm_std::to_json_vec(&terraswap::pair::ExecuteMsg::Swap {
                offer_asset: terraswap::asset::Asset {
                    info: terraswap::asset::AssetInfo::NativeToken {
                        denom: "uusd".to_string(),
                    },
                    amount: cosmwasm_std::Uint128::new(50),
                },
                belief_price: None,
                max_spread: None,
                to: None,
                deadline: None,
            })
            .unwrap();
            assert_eq!(msg, &expected);
        }
        _ => panic!("expected a venue call"),
    }
}

#[test]
fn execute_dispatches_bank() {
    let mut storage = ConfigStorage::new();
    instantiate(&mut storage, addr(b"owner")).unwrap();
    let res = execute(
        &storage,
        info("alice", addr(b"owner"), vec![]),
        ExecuteMsg::Bank {
            amount: Some(3),
            denom: Some("ukrw".to_string()),
        },
    )
    .unwrap();
    assert_eq!(res.messages.len(), 1);
    assert!(matches!(&res.messages[0], OutMsg::BankSend { .. }));
}

#[test]
fn execute_dispatches_swap_without_owner_check() {
    let storage = ConfigStorage::new();
    // Works even before initialization and for a non-owner caller: the swap
    // path never reads the config.
    let res = execute(
        &storage,
        info("anyone", addr(b"whoever"), vec![]),
        ExecuteMsg::Swap {
            swap_address: "venueX".to_string(),
            amount: 50,
            offer_denom: "uusd".to_string(),
        },
    )
    .unwrap();
    assert_eq!(res.messages.len(), 1);
    assert!(matches!(&res.messages[0], OutMsg::WasmExecute { .. }));
}

#[test]
fn query_config_returns_stored_owner() {
    let mut storage = ConfigStorage::new();
    instantiate(&mut storage, addr(b"owner")).unwrap();
    assert_eq!(query_config(&storage).unwrap().bytes, b"owner".to_vec());
    match query(&storage, QueryMsg::Config {}).unwrap() {
        QueryAnswer::Config { owner } => assert_eq!(owner.bytes, b"owner".to_vec()),
        _ => panic!("expected a config answer"),
    }
}

#[test]
fn query_config_before_initialize_fails() {
    let storage = ConfigStorage::new();
    assert!(matches!(
        query(&storage, QueryMsg::Config {}),
        Err(StdError::NotFound { .. })
    ));
}

#[test]
fn query_contract_value_is_zero() {
    assert_eq!(query_contract_value().unwrap(), 0);
    match query(&ConfigStorage::new(), QueryMsg::ContractValue {}).unwrap() {
        QueryAnswer::ContractValue { value } => assert_eq!(value, 0),
        _ => panic!("expected the valuation stub"),
    }
}

#[test]
fn query_roundtrip_through_host_address_api() {
    // The host supplies the canonicalize/humanize pair; its mock keeps the
    // roundtrip property for addresses already in canonical display form.
    let api = MockApi::default();
    let display = "owner-address";
    let canonical = api.addr_canonicalize(display).unwrap();

    let mut storage = ConfigStorage::new();
    instantiate(&mut storage, addr(canonical.as_slice())).unwrap();

    match query(&storage, QueryMsg::Config {}).unwrap() {
        QueryAnswer::Config { owner } => {
            let humanized = api
                .addr_humanize(&cosmwasm_std::CanonicalAddr::from(owner.bytes.as_slice()))
                .unwrap();
            assert_eq!(humanized.as_str(), display);
        }
        _ => panic!("expected a config answer"),
    }
}

#[test]
fn textually_distinct_spellings_authorize_equally() {
    // The host canonicalizes case-insensitively; two spellings of the owner
    // address yield the same canonical form and therefore the same rights.
    let api = MockApi::default();
    let canon_lower = api.addr_canonicalize("owneraddr").unwrap();
    let canon_upper = api.addr_canonicalize("OWNERADDR").unwrap();
    assert_eq!(canon_lower, canon_upper);

    let mut storage = ConfigStorage::new();
    instantiate(&mut storage, addr(canon_lower.as_slice())).unwrap();
    let res = tokens(
        &storage,
        info("OWNERADDR", addr(canon_upper.as_slice()), vec![]),
        Some(1),
        Some("uusd".to_string()),
    );
    assert!(res.is_ok());
}

#[test]
fn migrate_is_a_noop() {
    let res = migrate(MigrateMsg {}).unwrap();
    assert_eq!(res.messages.len(), 0);
}
