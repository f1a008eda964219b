use aurum_contracts::payment::check_payment;
use aurum_contracts::swap::SwapState;
use aurum_contracts::swap2::{
    try_withdraw_step1_collect_rewards, try_withdraw_step2_convert_all_native_coins_to_luna,
    try_withdraw_step3_send_luna, validator_string,
};
use aurum_contracts::{base_denom_string, Coin, Continuation, ContractError, Instruction};

fn s(text: &str) -> String {
    text.to_string()
}

fn coin(amount: u128, denom: &str) -> Coin {
    Coin { denom: denom.to_string(), amount }
}

fn state() -> SwapState {
    SwapState { owner: s("creator"), oracle_address: s("oracle"), token_address: s("token") }
}

/// The continuation that a step queues last.
fn continuation(msgs: &[Instruction]) -> Continuation {
    match msgs.last() {
        Some(Instruction::SelfCall { step, .. }) => step.clone(),
        other => panic!("no continuation queued: {:?}", other),
    }
}

#[test]
fn failed_last_step_keeps_settled_rewards() {
    let contract = s("self");
    // Step one settles: the claimed rewards land in the contract's balance.
    let res = try_withdraw_step1_collect_rewards(&contract, &vec![validator_string()], 500);
    let mut base_balance: u128 = 400;
    for m in &res.messages {
        if let Instruction::ClaimRewards { .. } = m {
            base_balance += 100;
        }
    }
    assert_eq!(continuation(&res.messages), Continuation::ConvertToBase { amount: 500 });
    assert_eq!(base_balance, 500);

    // Step two finds nothing left to convert and goes on.
    let balances = vec![coin(base_balance, "uluna")];
    let res =
        try_withdraw_step2_convert_all_native_coins_to_luna(&contract, &contract, &balances, 500)
            .unwrap();
    assert_eq!(res.messages.len(), 1);
    assert_eq!(continuation(&res.messages), Continuation::SendBase { amount: 500 });

    // Step three refuses a balance equal to the amount; the rewards stay claimed.
    let r = try_withdraw_step3_send_luna(&state(), &contract, &contract, base_balance, 500);
    assert_eq!(r, Err(ContractError::InvalidQuantity));
    assert_eq!(base_balance, 500);
}

#[test]
fn interleaved_requests_carry_their_own_amounts() {
    let contract = s("self");
    let a = try_withdraw_step1_collect_rewards(&contract, &vec![], 5);
    let b = try_withdraw_step1_collect_rewards(&contract, &vec![], 7);
    assert_eq!(continuation(&a.messages), Continuation::ConvertToBase { amount: 5 });
    assert_eq!(continuation(&b.messages), Continuation::ConvertToBase { amount: 7 });

    let b2 = try_withdraw_step2_convert_all_native_coins_to_luna(&contract, &contract, &vec![], 7)
        .unwrap();
    let a2 = try_withdraw_step2_convert_all_native_coins_to_luna(&contract, &contract, &vec![], 5)
        .unwrap();
    assert_eq!(continuation(&b2.messages), Continuation::SendBase { amount: 7 });
    assert_eq!(continuation(&a2.messages), Continuation::SendBase { amount: 5 });
}

#[test]
fn payment_check_accepts_one_positive_base_coin() {
    assert_eq!(check_payment(&vec![coin(55, "uluna")]), Ok(55));
    assert!(matches!(
        check_payment(&vec![coin(55, "uusd")]),
        Err(ContractError::InvalidPayment(_))
    ));
    assert!(matches!(check_payment(&vec![]), Err(ContractError::InvalidPayment(_))));
}

#[test]
fn fixed_names() {
    assert_eq!(base_denom_string(), "uluna");
    assert_eq!(validator_string(), "terravaloper1ze5dxzs4zcm60tg48m9unp8eh7maerma38dl84");
}
