use vstd::prelude::*;
use vstd::string::*;

verus! {

/// An amount of one denomination.
#[derive(Debug, Clone, PartialEq, Eq)]
pub struct Coin {
    pub denom: String,
    pub amount: u128,
}

/// One key/value pair reported by a successful operation.
#[derive(Debug, Clone, PartialEq, Eq)]
pub struct Attribute {
    pub key: String,
    pub value: String,
}

/// Reasons that `cw0::must_pay` gives for refusing the funds of a call.
#[derive(Debug, Clone, PartialEq, Eq)]
pub enum PaymentError {
    MissingDenom(String),
    ExtraDenom(String),
    MultipleDenoms,
    NoFunds,
    NonPayable,
}

/// The step of the withdrawal workflow that a self-addressed message starts.
#[derive(Debug, Clone, PartialEq, Eq)]
pub enum Continuation {
    /// Convert every non-base balance into the base currency.
    ConvertToBase { amount: u64 },
    /// Send `amount` of the base currency to the owner.
    SendBase { amount: u64 },
}

/// An instruction queued for the host to run after the current call returns.
#[derive(Debug, Clone, PartialEq, Eq)]
pub enum Instruction {
    /// Transfer of tracked tokens held by the token contract `token`.
    TokenTransfer { token: String, recipient: String, amount: u128 },
    /// Native currency sent through the bank module.
    BankSend { to_address: String, coin: Coin },
    /// Stake `coin` with `validator`.
    Delegate { validator: String, coin: Coin },
    /// Release `coin` staked with `validator`.
    Undelegate { validator: String, coin: Coin },
    /// Claim the rewards accrued on the delegation to `validator`.
    ClaimRewards { validator: String },
    /// Market conversion of `offer` into `ask_denom`.
    Swap { offer: Coin, ask_denom: String },
    /// A message that the contract `contract` addresses to itself.
    SelfCall { contract: String, step: Continuation },
}

/// What a successful call hands back to the host.
#[derive(Debug, Clone, PartialEq, Eq)]
pub struct Response {
    pub attributes: Vec<Attribute>,
    pub messages: Vec<Instruction>,
}

#[derive(Debug, Clone, PartialEq, Eq)]
pub enum ContractError {
    /// The caller is not the recorded owner (or, for a continuation step, not
    /// the contract itself).
    Unauthorized,
    /// The funds attached to a purchase are malformed.
    InvalidPayment(PaymentError),
    /// The contract holds fewer tracked tokens than the purchase would need.
    InsufficientSupply,
    /// An amount fails a balance or delegation precondition.
    InvalidQuantity,
    /// The oracle reports a price of zero, which quotes no purchase. The oracle
    /// itself accepts zero, so the swap refuses it here instead of dividing.
    InvalidPrice,
    /// The contract has no delegation to the validator.
    NoDelegationFound,
    /// The operation has no implementation.
    NotImplemented,
}

/// The denomination that the contracts are paid in and convert into.
pub open spec fn base_denom() -> Seq<char> {
    "uluna"@
}

pub fn base_denom_string() -> (r: String)
    ensures
        r@ == base_denom(),
{
    String::from_str("uluna")
}

pub open spec fn digit_char(d: nat) -> char
    recommends
        d < 10,
{
    seq!['0', '1', '2', '3', '4', '5', '6', '7', '8', '9'][d as int]
}

/// The decimal digits of `n`, most significant first, without leading zeros.
pub open spec fn decimal(n: nat) -> Seq<char>
    decreases n,
{
    if n < 10 {
        seq![digit_char(n)]
    } else {
        decimal(n / 10).push(digit_char(n % 10))
    }
}

/// Relies on `u128`'s `ToString` (through `Display`): base ten, no sign, no
/// leading zeros.
#[verifier::external_body]
fn decimal_string(n: u128) -> (r: String)
    ensures
        r@ == decimal(n as nat),
{
    n.to_string()
}

pub open spec fn attr_is(a: Attribute, key: Seq<char>, value: Seq<char>) -> bool {
    a.key@ == key && a.value@ == value
}

pub open spec fn coin_is(c: Coin, denom: Seq<char>, amount: u128) -> bool {
    c.denom@ == denom && c.amount == amount
}

/// An attribute whose value is the given text.
pub fn text_attr(key: &str, value: &str) -> (r: Attribute)
    ensures
        attr_is(r, key@, value@),
{
    Attribute { key: String::from_str(key), value: String::from_str(value) }
}

/// An attribute whose value is `n` in decimal.
pub fn number_attr(key: &str, n: u128) -> (r: Attribute)
    ensures
        attr_is(r, key@, decimal(n as nat)),
{
    Attribute { key: String::from_str(key), value: decimal_string(n) }
}

/// A reply with no attributes and no instructions.
pub fn empty_response() -> (r: Response)
    ensures
        r.attributes@.len() == 0,
        r.messages@.len() == 0,
{
    Response { attributes: Vec::new(), messages: Vec::new() }
}

} // verus!
