use cw_burner_admin::contract::{execute, execute_and_commit, instantiate, query};
use cw_burner_admin::error::{ContractError, PaymentRejection};
use cw_burner_admin::msg::{AuthorityAnswer, Coin, Env, ExecuteMsg, InstantiateMsg, MessageInfo, QueryMsg};
use cw_burner_admin::state::BurnTally;

const X: &str = "factory/osmo1issuer/x";
const Y: &str = "factory/osmo1issuer/y";

fn env() -> Env {
    Env { contract_address: "osmo1burner".to_string() }
}

fn paid(denom: &str, amount: u128) -> MessageInfo {
    MessageInfo { sender: "osmo1caller".to_string(), funds: vec![Coin { denom: denom.to_string(), amount }] }
}

fn burn(denom: &str) -> ExecuteMsg {
    ExecuteMsg::BurnBalance { denom: denom.to_string() }
}

fn burned(tally: &BurnTally, denom: &str) -> u128 {
    let c = query(tally, QueryMsg::AmountBurned { denom: denom.to_string() });
    assert_eq!(c.denom, denom);
    c.amount
}

#[test]
fn burn_records_balance_and_issues_instruction() {
    let mut tally = BurnTally::new();
    let resp = execute(&mut tally, &env(), &paid(X, 2_500), burn(X), 50_000).unwrap();
    assert_eq!(resp.messages.len(), 1);
    let m = &resp.messages[0];
    assert_eq!(m.sender, "osmo1burner");
    assert_eq!(m.burn_from_address, "osmo1burner");
    assert_eq!(m.denom, X);
    assert_eq!(m.amount, 50_000);
    assert_eq!(resp.attributes[0].key, "action");
    assert_eq!(resp.attributes[0].value, "burn_balance");
    assert_eq!(resp.attributes[1].key, "burn");
    assert_eq!(resp.attributes[1].value, format!("50000{}", X));
    assert_eq!(burned(&tally, X), 50_000);
}

#[test]
fn burns_accumulate_per_denomination() {
    let mut tally = BurnTally::new();
    let amounts = [(X, 10u128), (Y, 7), (X, 5), (Y, 0), (X, 100), (Y, 3)];
    for (d, a) in amounts {
        execute(&mut tally, &env(), &paid(d, 1), burn(d), a).unwrap();
    }
    assert_eq!(burned(&tally, X), 115);
    assert_eq!(burned(&tally, Y), 10);
}

#[test]
fn zero_balance_burns_nothing() {
    let mut tally = BurnTally::new();
    execute(&mut tally, &env(), &paid(X, 1), burn(X), 40).unwrap();
    let resp = execute(&mut tally, &env(), &paid(X, 1), burn(X), 0).unwrap();
    assert!(resp.messages.is_empty());
    assert_eq!(resp.attributes[0].value, "burn_balance");
    assert_eq!(resp.attributes[1].value, format!("0{}", X));
    assert_eq!(burned(&tally, X), 40);
}

#[test]
fn payment_is_required_in_the_denomination() {
    let mut tally = BurnTally::new();
    execute(&mut tally, &env(), &paid(X, 1), burn(X), 30).unwrap();
    let none = MessageInfo { sender: "osmo1caller".to_string(), funds: vec![] };
    let two = MessageInfo {
        sender: "osmo1caller".to_string(),
        funds: vec![Coin { denom: X.to_string(), amount: 5 }, Coin { denom: Y.to_string(), amount: 5 }],
    };
    let cases = [
        (paid(X, 0), PaymentRejection::NoFunds),
        (none, PaymentRejection::NoFunds),
        (paid(Y, 5), PaymentRejection::MissingDenom { denom: X.to_string() }),
        (two, PaymentRejection::MultipleDenoms),
    ];
    for (info, reason) in cases {
        let r = execute(&mut tally, &env(), &info, burn(X), 1_000);
        assert_eq!(r, Err(ContractError::PaymentRejected { reason }));
        assert_eq!(burned(&tally, X), 30);
    }
}

#[test]
fn authority_refusal_undoes_the_call() {
    let mut tally = BurnTally::new();
    let r = execute_and_commit(&mut tally, &env(), &paid(X, 10), burn(X), 40_000, AuthorityAnswer::Denied);
    assert_eq!(r, Err(ContractError::IssuanceAuthorityDenied { denom: X.to_string() }));
    assert_eq!(burned(&tally, X), 0);
    let r = execute_and_commit(&mut tally, &env(), &paid(X, 10), burn(X), 40_000, AuthorityAnswer::Accepted);
    assert_eq!(r.unwrap().messages[0].amount, 40_000);
    assert_eq!(burned(&tally, X), 40_000);
}

#[test]
fn refusal_does_not_matter_without_a_balance() {
    let mut tally = BurnTally::new();
    let r = execute_and_commit(&mut tally, &env(), &paid(X, 10), burn(X), 0, AuthorityAnswer::Denied);
    assert!(r.unwrap().messages.is_empty());
    assert_eq!(burned(&tally, X), 0);
}

#[test]
fn tally_overflow_is_an_error() {
    let mut tally = BurnTally::new();
    execute(&mut tally, &env(), &paid(X, 1), burn(X), u128::MAX - 1).unwrap();
    execute(&mut tally, &env(), &paid(X, 1), burn(X), 1).unwrap();
    assert_eq!(burned(&tally, X), u128::MAX);
    let r = execute(&mut tally, &env(), &paid(X, 1), burn(X), 1);
    assert_eq!(r, Err(ContractError::ArithmeticOverflow));
    assert_eq!(burned(&tally, X), u128::MAX);
}

#[test]
fn never_burned_reads_zero() {
    let mut tally = BurnTally::new();
    assert_eq!(burned(&tally, X), 0);
    execute(&mut tally, &env(), &paid(Y, 1), burn(Y), 9).unwrap();
    assert_eq!(query(&tally, QueryMsg::AmountBurned { denom: X.to_string() }), Coin { denom: X.to_string(), amount: 0 });
}

#[test]
fn instantiate_is_nonpayable() {
    let paid_info = paid("uosmo", 1);
    assert_eq!(
        instantiate(&paid_info, InstantiateMsg {}),
        Err(ContractError::PaymentRejected { reason: PaymentRejection::NonPayable })
    );
    for sender in ["osmo1a", "osmo1b", ""] {
        let info = MessageInfo { sender: sender.to_string(), funds: vec![] };
        let resp = instantiate(&info, InstantiateMsg {}).unwrap();
        assert!(resp.messages.is_empty() && resp.attributes.is_empty());
    }
}

#[test]
fn message_tags_are_recognized() {
    assert_eq!(
        ExecuteMsg::from_tag(&"burn_balance".to_string(), X.to_string()),
        Ok(burn(X))
    );
    assert_eq!(
        ExecuteMsg::from_tag(&"mint".to_string(), X.to_string()),
        Err(ContractError::UnrecognizedOperation { tag: "mint".to_string() })
    );
    assert_eq!(
        QueryMsg::from_tag(&"amount_burned".to_string(), X.to_string()),
        Ok(QueryMsg::AmountBurned { denom: X.to_string() })
    );
    assert!(matches!(
        QueryMsg::from_tag(&"supply".to_string(), X.to_string()),
        Err(ContractError::SerializationError { .. })
    ));
}

#[test]
fn scenario_single_denomination() {
    let mut tally = BurnTally::new();
    let resp = execute_and_commit(&mut tally, &env(), &paid(X, 2_500), burn(X), 50_000, AuthorityAnswer::Accepted)
        .unwrap();
    assert_eq!(resp.messages[0].amount, 50_000);
    assert_eq!(burned(&tally, X), 50_000);
}
