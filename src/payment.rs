use crate::common::{base_denom, base_denom_string, Coin, ContractError, PaymentError};
use cosmwasm_std::{Addr, MessageInfo, Uint128};
use vstd::prelude::*;

verus! {

/// `r` reports that the funds hold no coin of `denom`.
pub open spec fn missing_denom(r: Result<u128, PaymentError>, denom: Seq<char>) -> bool {
    r matches Err(PaymentError::MissingDenom(d)) && d@ == denom
}

/// Relies on `cw0::must_pay`: the funds must be exactly one coin, of a
/// non-zero amount, in `denom`; the amount comes back.
#[verifier::external_body]
fn must_pay(funds: &Vec<Coin>, denom: &str) -> (r: Result<u128, PaymentError>)
    ensures
        funds@.len() == 0 ==> r matches Err(PaymentError::NoFunds),
        funds@.len() > 1 ==> r matches Err(PaymentError::MultipleDenoms),
        funds@.len() == 1 && funds@[0].amount == 0 ==> r matches Err(PaymentError::NoFunds),
        funds@.len() == 1 && funds@[0].amount != 0 && funds@[0].denom@ != denom@ ==> missing_denom(r, denom@),
        funds@.len() == 1 && funds@[0].amount != 0 && funds@[0].denom@ == denom@ ==> r is Ok,
        r is Ok ==> r->Ok_0 == funds@[0].amount,
{
    let funds = funds.iter().map(|c| cosmwasm_std::Coin { denom: c.denom.clone(), amount: Uint128::new(c.amount) });
    let info = MessageInfo { sender: Addr::unchecked(""), funds: funds.collect() };
    match cw0::must_pay(&info, denom) {
        Ok(amount) => Ok(amount.u128()),
        Err(cw0::PaymentError::MissingDenom(d)) => Err(PaymentError::MissingDenom(d)),
        Err(cw0::PaymentError::ExtraDenom(d)) => Err(PaymentError::ExtraDenom(d)),
        Err(cw0::PaymentError::MultipleDenoms {}) => Err(PaymentError::MultipleDenoms),
        Err(cw0::PaymentError::NoFunds {}) => Err(PaymentError::NoFunds),
        Err(cw0::PaymentError::NonPayable {}) => Err(PaymentError::NonPayable),
    }
}

/// Whether `funds` is a valid payment: one coin, of a positive amount, in the
/// base denomination.
pub open spec fn valid_payment(funds: Seq<Coin>) -> bool {
    funds.len() == 1 && funds[0].amount > 0 && funds[0].denom@ == base_denom()
}

/// The amount paid in the base denomination, or `InvalidPayment` when the
/// funds are anything but one positive coin of it.
pub fn check_payment(funds: &Vec<Coin>) -> (r: Result<u128, ContractError>)
    ensures
        valid_payment(funds@) <==> r is Ok,
        r is Ok ==> r->Ok_0 == funds@[0].amount,
        !valid_payment(funds@) ==> r matches Err(ContractError::InvalidPayment(_)),
{
    let denom = base_denom_string();
    match must_pay(funds, denom.as_str()) {
        Ok(amount) => Ok(amount),
        Err(e) => Err(ContractError::InvalidPayment(e)),
    }
}

} // verus!
