use flash_mint::config::Config;
use flash_mint::ops::{ContractError, Operation};
use flash_mint::{flash_mint, private_flash_end};

fn config(fee: u64) -> Config {
    Config {
        flash_mint_fee: fee,
        stable_contract: String::from("stable"),
        collector_contract: String::from("collector"),
    }
}

const MILLI: u64 = 1_000_000_000_000_000; // a rate of 0.001
const HALF: u64 = 500_000_000_000_000_000; // a rate of 0.5

fn cw20_binary(msg: &cw20::Cw20ExecuteMsg) -> Vec<u8> {
    cosmwasm_std::to_binary(msg).unwrap().0
}

fn expect_execute(op: &Operation) -> (&str, &[u8]) {
    match op {
        Operation::Execute { contract_addr, msg } => (contract_addr.as_str(), msg.as_slice()),
        Operation::SettlementTrigger { .. } => panic!("expected an execute operation"),
    }
}

#[test]
fn happy_path_issuance() {
    let cfg = config(MILLI);
    let market = String::from("market");
    let bob = String::from("bob");
    let payload = vec![1u8, 2, 3];
    let r = flash_mint(&cfg, &market, &bob, payload.clone(), 1000);

    assert_eq!(r.operations.len(), 3);
    let (addr0, msg0) = expect_execute(&r.operations[0]);
    assert_eq!(addr0, "stable");
    let expected_mint = cw20_binary(&cw20::Cw20ExecuteMsg::Mint {
        recipient: String::from("bob"),
        amount: cosmwasm_std::Uint128::new(1000),
    });
    assert_eq!(msg0, expected_mint.as_slice());

    let (addr1, msg1) = expect_execute(&r.operations[1]);
    assert_eq!(addr1, "bob");
    assert_eq!(msg1, payload.as_slice());

    match &r.operations[2] {
        Operation::SettlementTrigger { contract_addr, flash_minter, burn_amount, fee_amount } => {
            assert_eq!(contract_addr.as_str(), "market");
            assert_eq!(flash_minter.as_str(), "bob");
            assert_eq!(*burn_amount, 1000);
            assert_eq!(*fee_amount, 1);
        }
        Operation::Execute { .. } => panic!("expected the settlement trigger"),
    }

    let attrs: Vec<(&str, &str)> = r
        .attributes
        .iter()
        .map(|a| (a.key.as_str(), a.value.as_str()))
        .collect();
    assert_eq!(
        attrs,
        vec![
            ("action", "flash_mint"),
            ("flash_minter", "bob"),
            ("amount", "1000"),
            ("fee_amount", "1"),
        ]
    );
}

#[test]
fn happy_path_settlement() {
    let cfg = config(MILLI);
    let market = String::from("market");
    let r = private_flash_end(&cfg, &market, &market, &String::from("bob"), 1000, 1).unwrap();

    assert_eq!(r.operations.len(), 2);
    let (addr0, msg0) = expect_execute(&r.operations[0]);
    assert_eq!(addr0, "stable");
    let expected_burn = cw20_binary(&cw20::Cw20ExecuteMsg::BurnFrom {
        owner: String::from("bob"),
        amount: cosmwasm_std::Uint128::new(1000),
    });
    assert_eq!(msg0, expected_burn.as_slice());

    let (addr1, msg1) = expect_execute(&r.operations[1]);
    assert_eq!(addr1, "stable");
    let expected_transfer = cw20_binary(&cw20::Cw20ExecuteMsg::TransferFrom {
        owner: String::from("bob"),
        recipient: String::from("collector"),
        amount: cosmwasm_std::Uint128::new(1),
    });
    assert_eq!(msg1, expected_transfer.as_slice());

    assert_eq!(r.attributes.len(), 1);
    assert_eq!(r.attributes[0].key.as_str(), "action");
    assert_eq!(r.attributes[0].value.as_str(), "private_flash_end");
}

#[test]
fn zero_fee_settlement_omits_transfer() {
    let cfg = config(0);
    let market = String::from("market");
    let r = private_flash_end(&cfg, &market, &market, &String::from("bob"), 500, 0).unwrap();

    assert_eq!(r.operations.len(), 1);
    let (addr0, msg0) = expect_execute(&r.operations[0]);
    assert_eq!(addr0, "stable");
    let expected_burn = cw20_binary(&cw20::Cw20ExecuteMsg::BurnFrom {
        owner: String::from("bob"),
        amount: cosmwasm_std::Uint128::new(500),
    });
    assert_eq!(msg0, expected_burn.as_slice());
}

#[test]
fn zero_fee_issuance_still_schedules_three() {
    let cfg = config(0);
    let r = flash_mint(&cfg, &String::from("market"), &String::from("bob"), vec![], 500);
    assert_eq!(r.operations.len(), 3);
    match &r.operations[2] {
        Operation::SettlementTrigger { burn_amount, fee_amount, .. } => {
            assert_eq!(*burn_amount, 500);
            assert_eq!(*fee_amount, 0);
        }
        Operation::Execute { .. } => panic!("expected the settlement trigger"),
    }
    assert_eq!(r.attributes[3].value.as_str(), "0");
}

#[test]
fn spoofed_settlement_is_rejected() {
    let cfg = config(MILLI);
    let market = String::from("market");
    let bob = String::from("bob");
    let r = private_flash_end(&cfg, &market, &bob, &String::from("victim"), 1_000_000, 999);
    assert!(matches!(r, Err(ContractError::Unauthorized)));
}

#[test]
fn fee_truncates() {
    // 1999 * 0.001 is 1.999, which truncates to 1.
    let cfg = config(MILLI);
    let r = flash_mint(&cfg, &String::from("market"), &String::from("bob"), vec![], 1999);
    match &r.operations[2] {
        Operation::SettlementTrigger { fee_amount, .. } => assert_eq!(*fee_amount, 1),
        Operation::Execute { .. } => panic!("expected the settlement trigger"),
    }
    assert_eq!(r.attributes[3].value.as_str(), "1");
}

#[test]
fn fee_half_rate() {
    // 7 * 0.5 is 3.5, which truncates to 3.
    let cfg = config(HALF);
    let r = flash_mint(&cfg, &String::from("market"), &String::from("bob"), vec![], 7);
    match &r.operations[2] {
        Operation::SettlementTrigger { fee_amount, .. } => assert_eq!(*fee_amount, 3),
        Operation::Execute { .. } => panic!("expected the settlement trigger"),
    }
}

#[test]
fn zero_amount_round_trip() {
    let cfg = config(MILLI);
    let r = flash_mint(&cfg, &String::from("market"), &String::from("bob"), vec![], 0);
    assert_eq!(r.operations.len(), 3);
    assert_eq!(r.attributes[2].value.as_str(), "0");
    assert_eq!(r.attributes[3].value.as_str(), "0");
}

#[test]
fn amount_attribute_formats_large_values() {
    let cfg = config(0);
    let r = flash_mint(
        &cfg,
        &String::from("market"),
        &String::from("bob"),
        vec![],
        u128::MAX,
    );
    assert_eq!(
        r.attributes[2].value.as_str(),
        "340282366920938463463374607431768211455"
    );
}
