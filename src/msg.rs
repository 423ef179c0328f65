use crate::error::ContractError;
use vstd::prelude::*;
use vstd::string::*;

verus! {

/// The message that sets the component up; it carries no configuration.
#[derive(Clone, Debug, PartialEq, Eq)]
pub struct InstantiateMsg {}

/// The operations that change state.
#[derive(Clone, Debug, PartialEq, Eq)]
pub enum ExecuteMsg {
    /// Burns all of the component's own balance of `denom`.
    BurnBalance { denom: String },
}

impl ExecuteMsg {
    /// The operation named by `tag` (its name as messages spell it), applied to
    /// `denom`; `burn_balance` is the only one.
    pub fn from_tag(tag: &String, denom: String) -> (r: Result<ExecuteMsg, ContractError>)
        ensures
            tag@ == "burn_balance"@ ==> (r matches Ok(ExecuteMsg::BurnBalance { denom: d })
                && d@ == denom@),
            tag@ != "burn_balance"@ ==> (r matches Err(ContractError::UnrecognizedOperation { tag: t })
                && t@ == tag@),
    {
        if *tag == String::from_str("burn_balance") {
            Ok(ExecuteMsg::BurnBalance { denom })
        } else {
            Err(ContractError::UnrecognizedOperation { tag: tag.clone() })
        }
    }
}

/// The read-only requests.
#[derive(Clone, Debug, PartialEq, Eq)]
pub enum QueryMsg {
    /// The cumulative amount of `denom` burned so far, answered as a `Coin`.
    AmountBurned { denom: String },
}

impl QueryMsg {
    /// The request named by `tag`, applied to `denom`; `amount_burned` is the only
    /// one, and any other name is a malformed request.
    pub fn from_tag(tag: &String, denom: String) -> (r: Result<QueryMsg, ContractError>)
        ensures
            tag@ == "amount_burned"@ ==> (r matches Ok(QueryMsg::AmountBurned { denom: d })
                && d@ == denom@),
            tag@ != "amount_burned"@ ==> r matches Err(ContractError::SerializationError { .. }),
    {
        if *tag == String::from_str("amount_burned") {
            Ok(QueryMsg::AmountBurned { denom })
        } else {
            let mut message = String::from_str("unknown query: ");
            message.append(tag.as_str());
            Err(ContractError::SerializationError { message })
        }
    }
}

/// An amount of one denomination.
#[derive(Clone, Debug, PartialEq, Eq)]
pub struct Coin {
    pub denom: String,
    pub amount: u128,
}

/// Who made a call and what funds came with it.
#[derive(Clone, Debug, PartialEq, Eq)]
pub struct MessageInfo {
    pub sender: String,
    pub funds: Vec<Coin>,
}

/// What the host tells the component about itself.
#[derive(Clone, Debug, PartialEq, Eq)]
pub struct Env {
    pub contract_address: String,
}

/// An instruction for the issuance authority: burn `amount` of `denom` held by
/// `burn_from_address`, on the authority of `sender`.
#[derive(Clone, Debug, PartialEq, Eq)]
pub struct BurnInstruction {
    pub sender: String,
    pub burn_from_address: String,
    pub denom: String,
    pub amount: u128,
}

/// A key and value reported with a successful call.
#[derive(Clone, Debug, PartialEq, Eq)]
pub struct Attribute {
    pub key: String,
    pub value: String,
}

/// What a successful call hands back to the host: instructions to run and attributes to report.
#[derive(Clone, Debug, PartialEq, Eq)]
pub struct Response {
    pub messages: Vec<BurnInstruction>,
    pub attributes: Vec<Attribute>,
}

/// What the issuance authority answered to the burn instruction of a call.
#[derive(PartialEq, Eq, Structural, Clone, Copy, Debug)]
pub enum AuthorityAnswer {
    Accepted,
    Denied,
}

} // verus!
