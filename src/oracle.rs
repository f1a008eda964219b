//! The price oracle: one owner-writable price, readable by anyone.
use crate::common::{
    attr_is, decimal, empty_response, number_attr, text_attr, ContractError, Response,
};
use vstd::prelude::*;

verus! {

/// What the oracle persists: who may change the price, and the price itself
/// (native-asset units per tracked-token unit).
#[derive(Debug, Clone, PartialEq, Eq)]
pub struct OracleState {
    pub owner: String,
    pub price: u64,
}

#[derive(Debug, Clone, PartialEq, Eq)]
pub struct InstantiateMsg {
    pub price: u64,
}

#[derive(Debug, Clone, PartialEq, Eq)]
pub enum ExecuteMsg {
    UpdatePrice { price: u64 },
}

#[derive(Debug, Clone, PartialEq, Eq)]
pub enum QueryMsg {
    QueryPrice,
}

#[derive(Debug, Clone, PartialEq, Eq)]
pub struct PriceResponse {
    pub price: u64,
}

/// Only the recorded owner may change the price.
pub open spec fn may_update(s: OracleState, sender: Seq<char>) -> bool {
    s.owner@ == sender
}

/// The state after `sender` asks to set the price to `p`: the new price when
/// the sender is the owner, the same state otherwise.
pub open spec fn after_update(s: OracleState, sender: Seq<char>, p: u64) -> OracleState {
    if may_update(s, sender) {
        OracleState { owner: s.owner, price: p }
    } else {
        s
    }
}

/// The reply to an update of `s` to `new_price`: no instruction; the method,
/// the owner, the old and the new price.
pub open spec fn reports_update(res: Response, s: OracleState, new_price: u64) -> bool {
    let a = res.attributes@;
    &&& res.messages@.len() == 0
    &&& a.len() == 4
    &&& attr_is(a[0], "method"@, "try_update_price"@)
    &&& attr_is(a[1], "owner"@, s.owner@)
    &&& attr_is(a[2], "old_price"@, decimal(s.price as nat))
    &&& attr_is(a[3], "new_price"@, decimal(new_price as nat))
}

/// Records the caller as owner and the price it gave.
pub fn instantiate(sender: &String, msg: InstantiateMsg) -> (r: (OracleState, Response))
    ensures
        r.0.owner@ == sender@,
        r.0.price == msg.price,
        r.1.messages@.len() == 0,
        r.1.attributes@.len() == 3,
        attr_is(r.1.attributes@[0], "method"@, "instantiate"@),
        attr_is(r.1.attributes@[1], "owner"@, sender@),
        attr_is(r.1.attributes@[2], "price"@, decimal(msg.price as nat)),
{
    let state = OracleState { owner: sender.clone(), price: msg.price };
    let mut res = empty_response();
    res.attributes.push(text_attr("method", "instantiate"));
    res.attributes.push(text_attr("owner", sender.as_str()));
    res.attributes.push(number_attr("price", msg.price as u128));
    (state, res)
}

pub fn execute(state: &mut OracleState, sender: &String, msg: ExecuteMsg) -> (r: Result<
    Response,
    ContractError,
>)
    ensures
        msg matches ExecuteMsg::UpdatePrice { price } && *final(state) == after_update(
            *old(state),
            sender@,
            price,
        ),
        r is Ok <==> may_update(*old(state), sender@),
        r is Err ==> r matches Err(ContractError::Unauthorized),
        msg matches ExecuteMsg::UpdatePrice { price } && (r is Ok ==> reports_update(
            r->Ok_0,
            *old(state),
            price,
        )),
{
    match msg {
        ExecuteMsg::UpdatePrice { price } => try_update_price(state, sender, price),
    }
}

/// Sets the price to `new_price` when `sender` is the owner; reports the old
/// and the new price.
pub fn try_update_price(state: &mut OracleState, sender: &String, new_price: u64) -> (r: Result<
    Response,
    ContractError,
>)
    ensures
        *final(state) == after_update(*old(state), sender@, new_price),
        r is Ok <==> may_update(*old(state), sender@),
        r is Err ==> r matches Err(ContractError::Unauthorized),
        r is Ok ==> reports_update(r->Ok_0, *old(state), new_price),
{
    if state.owner != *sender {
        return Err(ContractError::Unauthorized);
    }
    let current_price = state.price;
    state.price = new_price;
    let mut res = empty_response();
    res.attributes.push(text_attr("method", "try_update_price"));
    res.attributes.push(text_attr("owner", state.owner.as_str()));
    res.attributes.push(number_attr("old_price", current_price as u128));
    res.attributes.push(number_attr("new_price", new_price as u128));
    Ok(res)
}

pub fn query(state: &OracleState, msg: QueryMsg) -> (r: PriceResponse)
    ensures
        r.price == state.price,
{
    match msg {
        QueryMsg::QueryPrice => query_price(state),
    }
}

/// The current price; always available once the oracle exists.
pub fn query_price(state: &OracleState) -> (r: PriceResponse)
    ensures
        r.price == state.price,
{
    PriceResponse { price: state.price }
}

/// An owner's update is read back exactly by the next query, and a later
/// update by anyone else leaves that price in place.
pub proof fn lemma_owner_update_then_query(s: OracleState, p: u64, other: Seq<char>, q: u64)
    requires
        other != s.owner@,
    ensures
        may_update(s, s.owner@),
        after_update(s, s.owner@, p).price == p,
        !may_update(after_update(s, s.owner@, p), other),
        after_update(after_update(s, s.owner@, p), other, q) == after_update(s, s.owner@, p),
{
}

} // verus!
