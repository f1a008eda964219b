use aurum_contracts::swap::{
    instantiate, migrate, query_balance, query_token_addr, try_buy, try_withdraw,
    InstantiateMsg, SwapState,
};
use aurum_contracts::{Coin, ContractError, Instruction, PaymentError};

fn s(text: &str) -> String {
    text.to_string()
}

fn coin(amount: u128, denom: &str) -> Coin {
    Coin { denom: denom.to_string(), amount }
}

fn state() -> SwapState {
    SwapState { owner: s("creator"), oracle_address: s("oracle"), token_address: s("token") }
}

#[test]
fn swap_proper_initialization() {
    let msg = InstantiateMsg { oracle_address: s("oracle"), token_address: s("token") };
    let (st, res) = instantiate(&s("creator"), msg);
    assert_eq!(st, state());
    assert_eq!(res.messages.len(), 0);
    assert_eq!(res.attributes[0].value, "instantiate");
    assert_eq!(res.attributes[1].value, "creator");
    assert_eq!(res.attributes[2].key, "token_address");
    assert_eq!(res.attributes[2].value, "token");
    assert_eq!(query_token_addr(&st).token_address, "token");
}

#[test]
fn buy_quotes_floor_of_payment_over_price() {
    let res = try_buy(&state(), &s("swapper"), &vec![coin(55, "uluna")], 10, 1000).unwrap();
    assert_eq!(
        res.messages,
        vec![Instruction::TokenTransfer { token: s("token"), recipient: s("swapper"), amount: 5 }]
    );
    assert_eq!(res.attributes[0].value, "try_buy");
    assert_eq!(res.attributes[1].value, "55");
    assert_eq!(res.attributes[2].value, "5");
}

#[test]
fn buy_beyond_supply_fails() {
    let r = try_buy(&state(), &s("swapper"), &vec![coin(1000000, "uluna")], 10, 1000);
    assert_eq!(r, Err(ContractError::InsufficientSupply));
}

#[test]
fn buy_exactly_the_supply_succeeds() {
    let res = try_buy(&state(), &s("swapper"), &vec![coin(10009, "uluna")], 10, 1000).unwrap();
    assert_eq!(
        res.messages,
        vec![Instruction::TokenTransfer { token: s("token"), recipient: s("swapper"), amount: 1000 }]
    );
}

#[test]
fn buy_with_zero_price_fails() {
    let r = try_buy(&state(), &s("swapper"), &vec![coin(100, "uluna")], 0, 1000);
    assert_eq!(r, Err(ContractError::InvalidPrice));
}

#[test]
fn buy_with_bad_funds_fails() {
    let st = state();
    let who = s("swapper");
    assert_eq!(
        try_buy(&st, &who, &vec![], 10, 1000),
        Err(ContractError::InvalidPayment(PaymentError::NoFunds))
    );
    assert_eq!(
        try_buy(&st, &who, &vec![coin(0, "uluna")], 10, 1000),
        Err(ContractError::InvalidPayment(PaymentError::NoFunds))
    );
    assert_eq!(
        try_buy(&st, &who, &vec![coin(50, "uusd")], 10, 1000),
        Err(ContractError::InvalidPayment(PaymentError::MissingDenom(s("uluna"))))
    );
    assert_eq!(
        try_buy(&st, &who, &vec![coin(50, "uluna"), coin(5, "uusd")], 10, 1000),
        Err(ContractError::InvalidPayment(PaymentError::MultipleDenoms))
    );
}

#[test]
fn withdraw_by_owner_sends_base_currency() {
    let res = try_withdraw(&state(), &s("creator"), 300, 300).unwrap();
    assert_eq!(
        res.messages,
        vec![Instruction::BankSend { to_address: s("creator"), coin: coin(300, "uluna") }]
    );
    assert_eq!(res.attributes[0].value, "try_withdraw");
    assert_eq!(res.attributes[1].value, "300");
    assert_eq!(res.attributes[2].value, "uluna");
}

#[test]
fn withdraw_errors() {
    let st = state();
    assert_eq!(try_withdraw(&st, &s("intruder"), 1, 500), Err(ContractError::Unauthorized));
    assert_eq!(try_withdraw(&st, &s("creator"), 501, 500), Err(ContractError::InvalidQuantity));
    assert_eq!(try_withdraw(&st, &s("creator"), -1, 500), Err(ContractError::InvalidQuantity));
}

#[test]
fn swap_trivial_queries() {
    assert_eq!(query_balance(42).balance, 42);
    let res = migrate();
    assert!(res.messages.is_empty() && res.attributes.is_empty());
}
