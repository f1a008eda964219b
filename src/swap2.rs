//! The staking swap: sales are staked with a validator, and the owner draws
//! the proceeds through a three-step workflow (claim rewards, convert every
//! balance into the base currency, send the base currency) in which each step
//! queues a message to the contract itself for the next.
//!
//! Each step is its own transaction for the host: when a later step fails, what
//! an earlier, settled step did stays done.
use crate::common::{
    attr_is, base_denom, base_denom_string, coin_is, empty_response, text_attr, Coin,
    Continuation, ContractError, Instruction, Response,
};
use crate::payment::{check_payment, valid_payment};
use crate::swap::{
    buy_outcome, is_owner, owned_by, quote, quote_purchase, SwapState, TokenAddrResponse,
};
use vstd::prelude::*;

verus! {

#[derive(Debug, Clone, PartialEq, Eq)]
pub struct InstantiateMsg {
    pub token_address: String,
    pub oracle_address: String,
}

#[derive(Debug, Clone, PartialEq, Eq)]
pub enum ExecuteMsg {
    Buy,
    Withdraw { amount: u64 },
    StartUndelegation { amount: u128 },
    WithdrawStep2ConvertRewardsToLuna { amount: u64 },
    WithdrawStep3SendLuna { amount: u64 },
}

#[derive(Debug, Clone, PartialEq, Eq)]
pub enum QueryMsg {
    QueryTokenAddress,
}

/// The validator that sales are staked with.
pub open spec fn validator() -> Seq<char> {
    "terravaloper1ze5dxzs4zcm60tg48m9unp8eh7maerma38dl84"@
}

pub fn validator_string() -> (r: String)
    ensures
        r@ == validator(),
{
    String::from_str("terravaloper1ze5dxzs4zcm60tg48m9unp8eh7maerma38dl84")
}

/// Records the caller as owner, with the oracle and token contracts given.
pub fn instantiate(sender: &String, msg: InstantiateMsg) -> (r: (SwapState, Response))
    ensures
        r.0.owner@ == sender@,
        r.0.oracle_address == msg.oracle_address,
        r.0.token_address == msg.token_address,
        r.1.messages@.len() == 0,
        r.1.attributes@.len() == 0,
{
    let state = SwapState {
        owner: sender.clone(),
        oracle_address: msg.oracle_address,
        token_address: msg.token_address,
    };
    (state, empty_response())
}

/// No query is served.
pub fn query(msg: QueryMsg) -> (r: Result<TokenAddrResponse, ContractError>)
    ensures
        r matches Err(ContractError::NotImplemented),
{
    Err(ContractError::NotImplemented)
}

/// Migration carries the state over as it is.
pub fn migrate() -> (r: Response)
    ensures
        r.attributes@.len() == 0,
        r.messages@.len() == 0,
{
    empty_response()
}

/// Sells tokens for `funds` at the oracle's `price`, out of the `balance` of
/// tracked tokens that the contract holds, and stakes the payment.
pub fn try_buy(state: &SwapState, sender: &String, funds: &Vec<Coin>, price: u64, balance: u128) -> (r: Result<
    Response,
    ContractError,
>)
    ensures
        !valid_payment(funds@) ==> r matches Err(ContractError::InvalidPayment(_)),
        valid_payment(funds@) ==> (r is Ok <==> buy_outcome(funds@[0].amount, price, balance) is Ok),
        valid_payment(funds@) && buy_outcome(funds@[0].amount, price, balance) is Err ==> r->Err_0
            == buy_outcome(funds@[0].amount, price, balance)->Err_0,
        r is Ok ==> {
            let paid = funds@[0].amount;
            let res = r->Ok_0;
            &&& res.attributes@.len() == 0
            &&& res.messages@.len() == 2
            &&& res.messages@[0] matches Instruction::Delegate { validator: v, coin }
            &&& v@ == validator()
            &&& coin_is(coin, base_denom(), paid)
            &&& res.messages@[1] == (Instruction::TokenTransfer {
                token: state.token_address,
                recipient: *sender,
                amount: quote(paid, price),
            })
        },
{
    let paid = check_payment(funds)?;
    let qty = quote_purchase(paid, price, balance)?;
    let mut res = empty_response();
    res.messages.push(
        Instruction::Delegate {
            validator: validator_string(),
            coin: Coin { denom: base_denom_string(), amount: paid },
        },
    );
    res.messages.push(
        Instruction::TokenTransfer {
            token: state.token_address.clone(),
            recipient: sender.clone(),
            amount: qty,
        },
    );
    Ok(res)
}

/// One reward claim for each validator that the contract has a delegation to.
pub fn collect_all_rewards(validators: &Vec<String>) -> (r: Vec<Instruction>)
    ensures
        r@.len() == validators@.len(),
        forall|i: int|
            0 <= i < r@.len() ==> r@[i] == (Instruction::ClaimRewards { validator: validators@[i] }),
{
    let mut out: Vec<Instruction> = Vec::new();
    let mut i: usize = 0;
    while i < validators.len()
        invariant
            i <= validators@.len(),
            out@.len() == i,
            forall|j: int|
                0 <= j < i ==> out@[j] == (Instruction::ClaimRewards { validator: validators@[j] }),
        decreases validators@.len() - i,
    {
        out.push(Instruction::ClaimRewards { validator: validators[i].clone() });
        i += 1;
    }
    out
}

/// First step of a withdrawal: claim the rewards of every delegation (to the
/// `validators` given), then let the contract at `contract` convert its
/// balances, carrying `amount` on.
pub fn try_withdraw_step1_collect_rewards(contract: &String, validators: &Vec<String>, amount: u64) -> (r:
    Response)
    ensures
        r.attributes@.len() == 1,
        attr_is(r.attributes@[0], "method"@, "try_withdraw_step1_collect_rewards"@),
        r.messages@.len() == validators@.len() + 1,
        forall|i: int|
            0 <= i < validators@.len() ==> r.messages@[i] == (Instruction::ClaimRewards {
                validator: validators@[i],
            }),
        r.messages@.last() == (Instruction::SelfCall {
            contract: *contract,
            step: Continuation::ConvertToBase { amount },
        }),
{
    let mut res = empty_response();
    res.messages = collect_all_rewards(validators);
    res.messages.push(
        Instruction::SelfCall {
            contract: contract.clone(),
            step: Continuation::ConvertToBase { amount },
        },
    );
    res.attributes.push(text_attr("method", "try_withdraw_step1_collect_rewards"));
    res
}

/// The balances that the conversion step offers: all but those already in the
/// base currency, in the order held.
pub open spec fn convertible(balances: Seq<Coin>) -> Seq<Coin> {
    balances.filter(|c: Coin| c.denom@ != base_denom())
}

/// `m` converts the whole of `c` into the base currency.
pub open spec fn converts(m: Instruction, c: Coin) -> bool {
    m matches Instruction::Swap { offer, ask_denom } && offer == c && ask_denom@ == base_denom()
}

/// Continuation steps are accepted from the contract itself only.
pub open spec fn from_self(contract: Seq<char>, sender: Seq<char>) -> bool {
    contract == sender
}

/// Second step of a withdrawal: convert each of the contract's `balances` that
/// is not in the base currency, then go on to sending `amount`.
pub fn try_withdraw_step2_convert_all_native_coins_to_luna(
    contract: &String,
    sender: &String,
    balances: &Vec<Coin>,
    amount: u64,
) -> (r: Result<Response, ContractError>)
    ensures
        r is Ok <==> from_self(contract@, sender@),
        r is Err ==> r matches Err(ContractError::Unauthorized),
        r is Ok ==> {
            let res = r->Ok_0;
            let offered = convertible(balances@);
            &&& res.attributes@.len() == 1
            &&& attr_is(res.attributes@[0], "method"@, "try_withdraw_step2_convert_all_native_coins_to_luna"@)
            &&& res.messages@.len() == offered.len() + 1
            &&& forall|i: int| 0 <= i < offered.len() ==> converts(#[trigger] res.messages@[i], offered[i])
            &&& res.messages@.last() == (Instruction::SelfCall {
                contract: *contract,
                step: Continuation::SendBase { amount },
            })
        },
{
    if *contract != *sender {
        return Err(ContractError::Unauthorized);
    }
    let base = base_denom_string();
    let mut msgs: Vec<Instruction> = Vec::new();
    let mut i: usize = 0;
    while i < balances.len()
        invariant
            i <= balances@.len(),
            base@ == base_denom(),
            msgs@.len() == convertible(balances@.take(i as int)).len(),
            forall|j: int|
                0 <= j < msgs@.len() ==> converts(
                    #[trigger] msgs@[j],
                    convertible(balances@.take(i as int))[j],
                ),
        decreases balances@.len() - i,
    {
        let bal = &balances[i];
        assert(balances@.take(i + 1).drop_last() =~= balances@.take(i as int));
        proof {
            reveal(Seq::filter);
        }
        if bal.denom != base {
            msgs.push(
                Instruction::Swap {
                    offer: Coin { denom: bal.denom.clone(), amount: bal.amount },
                    ask_denom: base_denom_string(),
                },
            );
        }
        i += 1;
    }
    assert(balances@.take(balances@.len() as int) =~= balances@);
    msgs.push(
        Instruction::SelfCall { contract: contract.clone(), step: Continuation::SendBase { amount } },
    );
    let mut res = empty_response();
    res.messages = msgs;
    res.attributes.push(
        text_attr("method", "try_withdraw_step2_convert_all_native_coins_to_luna"),
    );
    Ok(res)
}

/// Whether a base balance of `balance` lets the last step send `amount`: it
/// must be strictly greater.
pub open spec fn can_send_base(balance: u128, amount: u64) -> bool {
    balance > amount
}

/// Last step of a withdrawal: send `amount` of the base currency to the owner,
/// when the contract's `base_balance` exceeds it.
pub fn try_withdraw_step3_send_luna(
    state: &SwapState,
    contract: &String,
    sender: &String,
    base_balance: u128,
    amount: u64,
) -> (r: Result<Response, ContractError>)
    ensures
        !from_self(contract@, sender@) ==> r matches Err(ContractError::Unauthorized),
        from_self(contract@, sender@) && !can_send_base(base_balance, amount) ==> r matches Err(
            ContractError::InvalidQuantity,
        ),
        r is Ok <==> from_self(contract@, sender@) && can_send_base(base_balance, amount),
        r is Ok ==> {
            let res = r->Ok_0;
            &&& res.attributes@.len() == 1
            &&& attr_is(res.attributes@[0], "method"@, "try_withdraw_step3_send_luna"@)
            &&& res.messages@.len() == 1
            &&& res.messages@[0] matches Instruction::BankSend { to_address, coin }
            &&& to_address == state.owner
            &&& coin_is(coin, base_denom(), amount as u128)
        },
{
    if *contract != *sender {
        return Err(ContractError::Unauthorized);
    }
    if base_balance <= amount as u128 {
        return Err(ContractError::InvalidQuantity);
    }
    let mut res = empty_response();
    res.messages.push(
        Instruction::BankSend {
            to_address: state.owner.clone(),
            coin: Coin { denom: base_denom_string(), amount: amount as u128 },
        },
    );
    res.attributes.push(text_attr("method", "try_withdraw_step3_send_luna"));
    Ok(res)
}

/// The last step refuses a balance equal to the amount and accepts one unit
/// more.
pub proof fn lemma_send_base_boundary(amount: u64)
    ensures
        !can_send_base(amount as u128, amount),
        can_send_base((amount + 1) as u128, amount),
{
}

/// Asks to release `amount` of the stake with the validator. `delegation` is
/// what the contract has staked there, if anything.
pub fn try_start_undelegation(
    state: &SwapState,
    sender: &String,
    delegation: &Option<Coin>,
    amount: u128,
) -> (r: Result<Response, ContractError>)
    ensures
        !owned_by(*state, sender@) ==> r matches Err(ContractError::Unauthorized),
        owned_by(*state, sender@) && delegation is None ==> r matches Err(
            ContractError::NoDelegationFound,
        ),
        owned_by(*state, sender@) && delegation is Some ==> {
            let d = delegation->Some_0;
            if d.denom@ == base_denom() && d.amount >= amount {
                r is Ok
            } else {
                r matches Err(ContractError::InvalidQuantity)
            }
        },
        r is Ok ==> {
            let res = r->Ok_0;
            &&& res.attributes@.len() == 1
            &&& attr_is(res.attributes@[0], "method"@, "try_start_undelegation"@)
            &&& res.messages@.len() == 1
            &&& res.messages@[0] matches Instruction::Undelegate { validator: v, coin }
            &&& v@ == validator()
            &&& coin_is(coin, base_denom(), amount)
        },
{
    if !is_owner(state, sender) {
        return Err(ContractError::Unauthorized);
    }
    match delegation {
        None => Err(ContractError::NoDelegationFound),
        Some(d) => {
            let base = base_denom_string();
            if d.denom == base && d.amount >= amount {
                let mut res = empty_response();
                res.attributes.push(text_attr("method", "try_start_undelegation"));
                res.messages.push(
                    Instruction::Undelegate {
                        validator: validator_string(),
                        coin: Coin { denom: base, amount },
                    },
                );
                Ok(res)
            } else {
                Err(ContractError::InvalidQuantity)
            }
        },
    }
}

} // verus!
