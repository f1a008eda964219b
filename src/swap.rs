//! The swap: sells tracked tokens for the base currency at the oracle's price.
use crate::common::{
    attr_is, base_denom, base_denom_string, coin_is, decimal, empty_response, number_attr,
    text_attr, Coin, ContractError, Instruction, Response,
};
use crate::payment::{check_payment, valid_payment};
use vstd::arithmetic::div_mod::{lemma_fundamental_div_mod, lemma_mod_pos_bound};
use vstd::prelude::*;

verus! {

/// What a swap contract persists, written once at instantiation.
#[derive(Debug, Clone, PartialEq, Eq)]
pub struct SwapState {
    pub owner: String,
    pub oracle_address: String,
    pub token_address: String,
}

#[derive(Debug, Clone, PartialEq, Eq)]
pub struct InstantiateMsg {
    pub oracle_address: String,
    pub token_address: String,
}

#[derive(Debug, Clone, PartialEq, Eq)]
pub enum ExecuteMsg {
    Buy,
    Withdraw { amount: i32 },
}

#[derive(Debug, Clone, PartialEq, Eq)]
pub enum QueryMsg {
    GetBalance,
    GetTokenAddr,
}

#[derive(Debug, Clone, PartialEq, Eq)]
pub struct BalanceResponse {
    pub balance: u128,
}

#[derive(Debug, Clone, PartialEq, Eq)]
pub struct TokenAddrResponse {
    pub token_address: String,
}

/// The owner alone may withdraw or undelegate.
pub open spec fn owned_by(state: SwapState, sender: Seq<char>) -> bool {
    state.owner@ == sender
}

pub fn is_owner(state: &SwapState, sender: &String) -> (r: bool)
    ensures
        r == owned_by(*state, sender@),
{
    state.owner == *sender
}

/// Tokens bought by `payment` at `price`: rounded down, the remainder is not
/// refunded.
pub open spec fn quote(payment: u128, price: u64) -> u128
    recommends
        price > 0,
{
    payment / (price as u128)
}

/// The quote is the largest whole number of tokens that `payment` covers at
/// `price`: it never exceeds the payment, and one token more would.
pub proof fn lemma_quote_is_floor(payment: u128, price: u64)
    requires
        price > 0,
    ensures
        quote(payment, price) * price <= payment,
        payment < (quote(payment, price) + 1) * price,
{
    let x = payment as int;
    let p = price as int;
    lemma_fundamental_div_mod(x, p);
    lemma_mod_pos_bound(x, p);
    assert(x / p * p <= x < (x / p + 1) * p) by (nonlinear_arith)
        requires
            x == p * (x / p) + x % p,
            0 <= x % p < p,
    ;
}

/// How a purchase of `payment` at `price` ends, given `balance` tracked
/// tokens held: the number of tokens to hand over, or why none are.
pub open spec fn buy_outcome(payment: u128, price: u64, balance: u128) -> Result<u128, ContractError> {
    if price == 0 {
        Err(ContractError::InvalidPrice)
    } else if quote(payment, price) > balance {
        Err(ContractError::InsufficientSupply)
    } else {
        Ok(quote(payment, price))
    }
}

/// Decides a purchase once the payment is known to be valid.
pub fn quote_purchase(payment: u128, price: u64, balance: u128) -> (r: Result<u128, ContractError>)
    ensures
        r == buy_outcome(payment, price, balance),
{
    if price == 0 {
        return Err(ContractError::InvalidPrice);
    }
    let qty = payment / (price as u128);
    if qty > balance {
        Err(ContractError::InsufficientSupply)
    } else {
        Ok(qty)
    }
}

/// Records the caller as owner, with the oracle and token contracts given.
pub fn instantiate(sender: &String, msg: InstantiateMsg) -> (r: (SwapState, Response))
    ensures
        r.0.owner@ == sender@,
        r.0.oracle_address == msg.oracle_address,
        r.0.token_address == msg.token_address,
        r.1.messages@.len() == 0,
        r.1.attributes@.len() == 3,
        attr_is(r.1.attributes@[0], "method"@, "instantiate"@),
        attr_is(r.1.attributes@[1], "owner"@, sender@),
        attr_is(r.1.attributes@[2], "token_address"@, msg.token_address@),
{
    let mut res = empty_response();
    res.attributes.push(text_attr("method", "instantiate"));
    res.attributes.push(text_attr("owner", sender.as_str()));
    res.attributes.push(text_attr("token_address", msg.token_address.as_str()));
    let state = SwapState {
        owner: sender.clone(),
        oracle_address: msg.oracle_address,
        token_address: msg.token_address,
    };
    (state, res)
}

/// Sells tokens for `funds` at the oracle's `price`, out of the `balance` of
/// tracked tokens that the contract holds: one transfer of the quote to the
/// buyer, or no instruction at all.
pub fn try_buy(state: &SwapState, sender: &String, funds: &Vec<Coin>, price: u64, balance: u128) -> (r: Result<
    Response,
    ContractError,
>)
    ensures
        !valid_payment(funds@) ==> r matches Err(ContractError::InvalidPayment(_)),
        valid_payment(funds@) ==> (r is Ok <==> buy_outcome(funds@[0].amount, price, balance) is Ok),
        valid_payment(funds@) && buy_outcome(funds@[0].amount, price, balance) is Err ==> r->Err_0
            == buy_outcome(funds@[0].amount, price, balance)->Err_0,
        r is Ok ==> {
            let paid = funds@[0].amount;
            let qty = quote(paid, price);
            let res = r->Ok_0;
            &&& res.messages@ == seq![
                (Instruction::TokenTransfer {
                    token: state.token_address,
                    recipient: *sender,
                    amount: qty,
                }),
            ]
            &&& res.attributes@.len() == 3
            &&& attr_is(res.attributes@[0], "method"@, "try_buy"@)
            &&& attr_is(res.attributes@[1], "swapped_uluna"@, decimal(paid as nat))
            &&& attr_is(res.attributes@[2], "swapped_aurm"@, decimal(qty as nat))
        },
{
    let paid = check_payment(funds)?;
    let qty = quote_purchase(paid, price, balance)?;
    let mut res = empty_response();
    res.attributes.push(text_attr("method", "try_buy"));
    res.attributes.push(number_attr("swapped_uluna", paid));
    res.attributes.push(number_attr("swapped_aurm", qty));
    res.messages.push(
        Instruction::TokenTransfer {
            token: state.token_address.clone(),
            recipient: sender.clone(),
            amount: qty,
        },
    );
    Ok(res)
}

/// Sends `amount` of the base currency to the owner, out of the contract's
/// `base_balance`.
pub fn try_withdraw(state: &SwapState, sender: &String, amount: i32, base_balance: u128) -> (r:
    Result<Response, ContractError>)
    ensures
        !owned_by(*state, sender@) ==> r matches Err(ContractError::Unauthorized),
        owned_by(*state, sender@) && (amount < 0 || base_balance < amount) ==> r matches Err(
            ContractError::InvalidQuantity,
        ),
        owned_by(*state, sender@) && 0 <= amount <= base_balance ==> r is Ok,
        r is Ok ==> {
            let res = r->Ok_0;
            &&& res.messages@.len() == 1
            &&& res.messages@[0] matches Instruction::BankSend { to_address, coin }
            &&& to_address@ == state.owner@
            &&& coin_is(coin, base_denom(), amount as u128)
            &&& res.attributes@.len() == 3
            &&& attr_is(res.attributes@[0], "method"@, "try_withdraw"@)
            &&& attr_is(res.attributes@[1], "amount_transferred"@, decimal(amount as nat))
            &&& attr_is(res.attributes@[2], "denom_transferred"@, base_denom())
        },
{
    if !is_owner(state, sender) {
        return Err(ContractError::Unauthorized);
    }
    if amount < 0 || base_balance < amount as u128 {
        return Err(ContractError::InvalidQuantity);
    }
    let amount = amount as u128;
    let mut res = empty_response();
    res.attributes.push(text_attr("method", "try_withdraw"));
    res.attributes.push(number_attr("amount_transferred", amount));
    let denom = base_denom_string();
    res.attributes.push(text_attr("denom_transferred", denom.as_str()));
    res.messages.push(
        Instruction::BankSend { to_address: sender.clone(), coin: Coin { denom, amount } },
    );
    Ok(res)
}

/// Migration carries the state over as it is.
pub fn migrate() -> (r: Response)
    ensures
        r.attributes@.len() == 0,
        r.messages@.len() == 0,
{
    empty_response()
}

pub fn query_token_addr(state: &SwapState) -> (r: TokenAddrResponse)
    ensures
        r.token_address == state.token_address,
{
    TokenAddrResponse { token_address: state.token_address.clone() }
}

/// Reports the tracked-token `balance` that the contract holds.
pub fn query_balance(balance: u128) -> (r: BalanceResponse)
    ensures
        r.balance == balance,
{
    BalanceResponse { balance }
}

} // verus!
