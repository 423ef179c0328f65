use crate::error::PaymentRejection;
use crate::msg::{Coin, MessageInfo};
use cw_utils::PaymentError as Fault;
use vstd::prelude::*;

verus! {

/// The funds are exactly one coin of `denom` with a non-zero amount.
pub open spec fn pays_exactly(funds: Seq<Coin>, denom: Seq<char>) -> bool {
    funds.len() == 1 && funds[0].amount > 0 && funds[0].denom@ == denom
}

/// `e` is the rejection owed to `funds` when a payment in `denom` is asked for
/// and they do not make one.
pub open spec fn payment_fault_fits(funds: Seq<Coin>, denom: Seq<char>, e: PaymentRejection) -> bool {
    if funds.len() == 0 || (funds.len() == 1 && funds[0].amount == 0) {
        e is NoFunds
    } else if funds.len() >= 2 {
        e is MultipleDenoms
    } else {
        match e {
            PaymentRejection::MissingDenom { denom: d } => d@ == denom,
            _ => false,
        }
    }
}

/// Relies on cw_utils::must_pay: it accepts exactly one coin of `denom` with a
/// non-zero amount and returns that amount; else NoFunds (none, or a zero amount),
/// MultipleDenoms (two or more coins) or MissingDenom (one coin of another denomination).
#[verifier::external_body]
pub(crate) fn must_pay(info: &MessageInfo, denom: &String) -> (r: Result<u128, PaymentRejection>)
    ensures
        r is Ok <==> pays_exactly(info.funds@, denom@),
        r matches Ok(a) ==> a == info.funds@[0].amount,
        r matches Err(e) ==> payment_fault_fits(info.funds@, denom@, e),
{
    let funds = info.funds.iter().map(|c| cosmwasm_std::Coin::new(c.amount, c.denom.as_str()));
    let sender = cosmwasm_std::Addr::unchecked(info.sender.as_str());
    let info = cosmwasm_std::MessageInfo { sender, funds: funds.collect() };
    match cw_utils::must_pay(&info, denom) {
        Ok(a) => Ok(a.u128()),
        Err(Fault::MissingDenom(d)) => Err(PaymentRejection::MissingDenom { denom: d }),
        Err(Fault::ExtraDenom(d)) => Err(PaymentRejection::ExtraDenom { denom: d }),
        Err(Fault::MultipleDenoms {}) => Err(PaymentRejection::MultipleDenoms),
        Err(Fault::NoFunds {}) => Err(PaymentRejection::NoFunds),
        Err(Fault::NonPayable {}) => Err(PaymentRejection::NonPayable),
    }
}

/// Relies on cw_utils::nonpayable: it accepts a call with no funds and answers
/// NonPayable to any other.
#[verifier::external_body]
pub(crate) fn nonpayable(info: &MessageInfo) -> (r: Result<(), PaymentRejection>)
    ensures
        r is Ok <==> info.funds@.len() == 0,
        r matches Err(e) ==> e is NonPayable,
{
    let funds = info.funds.iter().map(|c| cosmwasm_std::Coin::new(c.amount, c.denom.as_str()));
    let sender = cosmwasm_std::Addr::unchecked(info.sender.as_str());
    let info = cosmwasm_std::MessageInfo { sender, funds: funds.collect() };
    match cw_utils::nonpayable(&info) {
        Ok(()) => Ok(()),
        Err(_) => Err(PaymentRejection::NonPayable),
    }
}

} // verus!
