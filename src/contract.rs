use crate::error::{ContractError, PaymentRejection};
use crate::msg::{
    Attribute, AuthorityAnswer, BurnInstruction, Coin, Env, ExecuteMsg, InstantiateMsg, MessageInfo,
    QueryMsg, Response,
};
use crate::payment::{must_pay, nonpayable, pays_exactly, payment_fault_fits};
use crate::state::{amount_of, burn_step, BurnTally};
use vstd::prelude::*;
use vstd::string::*;

verus! {

/// The character of a decimal digit.
pub open spec fn digit_char(d: nat) -> char {
    if d == 0 { '0' }
    else if d == 1 { '1' }
    else if d == 2 { '2' }
    else if d == 3 { '3' }
    else if d == 4 { '4' }
    else if d == 5 { '5' }
    else if d == 6 { '6' }
    else if d == 7 { '7' }
    else if d == 8 { '8' }
    else { '9' }
}

/// The decimal digits of `n`, most significant first, without leading zeros.
pub open spec fn decimal(n: nat) -> Seq<char>
    decreases n,
{
    if n < 10 {
        seq![digit_char(n)]
    } else {
        decimal(n / 10) + seq![digit_char(n % 10)]
    }
}

/// Relies on the `Display` of cosmwasm_std::Coin: the amount in decimal, then the
/// denomination, with nothing between them.
#[verifier::external_body]
fn coin_text(c: &Coin) -> (r: String)
    ensures
        r@ == decimal(c.amount as nat) + c.denom@,
{
    cosmwasm_std::Coin::new(c.amount, c.denom.as_str()).to_string()
}

/// How a burn call ends, decided in this order: the payment, the tally's room,
/// the issuance authority's answer.
pub enum BurnVerdict {
    PaymentRejected,
    Overflow,
    AuthorityDenied,
    Burned,
}

pub open spec fn burn_verdict(
    m: Map<Seq<char>, nat>,
    funds: Seq<Coin>,
    denom: Seq<char>,
    balance: nat,
    answer: AuthorityAnswer,
) -> BurnVerdict {
    if !pays_exactly(funds, denom) {
        BurnVerdict::PaymentRejected
    } else if balance > 0 && amount_of(m, denom) + balance > u128::MAX {
        BurnVerdict::Overflow
    } else if balance > 0 && answer == AuthorityAnswer::Denied {
        BurnVerdict::AuthorityDenied
    } else {
        BurnVerdict::Burned
    }
}

/// The response to a burn of `amount` of `denom`: one burn instruction from and on
/// the authority of `contract` when the amount is not zero, and the attributes
/// `action = burn_balance` and `burn = <amount><denom>`.
pub open spec fn is_burn_response(resp: Response, contract: Seq<char>, denom: Seq<char>, amount: u128) -> bool {
    &&& resp.attributes@.len() == 2
    &&& resp.attributes@[0].key@ == "action"@
    &&& resp.attributes@[0].value@ == "burn_balance"@
    &&& resp.attributes@[1].key@ == "burn"@
    &&& resp.attributes@[1].value@ == decimal(amount as nat) + denom
    &&& if amount == 0 {
        resp.messages@.len() == 0
    } else {
        &&& resp.messages@.len() == 1
        &&& resp.messages@[0].sender@ == contract
        &&& resp.messages@[0].burn_from_address@ == contract
        &&& resp.messages@[0].denom@ == denom
        &&& resp.messages@[0].amount == amount
    }
}

/// A burn call on a tally `before`, with the given funds, balance and answer of the
/// authority, ended with `r` and left the tally `after`.
pub open spec fn burn_settled(
    before: Map<Seq<char>, nat>,
    after: Map<Seq<char>, nat>,
    contract: Seq<char>,
    funds: Seq<Coin>,
    denom: Seq<char>,
    balance: u128,
    answer: AuthorityAnswer,
    r: Result<Response, ContractError>,
) -> bool {
    match burn_verdict(before, funds, denom, balance as nat, answer) {
        BurnVerdict::PaymentRejected => after == before && (r matches Err(
            ContractError::PaymentRejected { reason },
        ) && payment_fault_fits(funds, denom, reason)),
        BurnVerdict::Overflow => after == before && r matches Err(ContractError::ArithmeticOverflow),
        BurnVerdict::AuthorityDenied => after == before && (r matches Err(
            ContractError::IssuanceAuthorityDenied { denom: d },
        ) && d@ == denom),
        BurnVerdict::Burned => after == burn_step(before, denom, balance as nat) && (r matches Ok(
            resp,
        ) && is_burn_response(resp, contract, denom, balance)),
    }
}

fn burn_response(env: &Env, denom: &String, balance: u128) -> (r: Response)
    ensures
        is_burn_response(r, env.contract_address@, denom@, balance),
{
    let mut messages: Vec<BurnInstruction> = Vec::new();
    if balance > 0 {
        messages.push(
            BurnInstruction {
                sender: env.contract_address.clone(),
                burn_from_address: env.contract_address.clone(),
                denom: denom.clone(),
                amount: balance,
            },
        );
    }
    let burned = Coin { denom: denom.clone(), amount: balance };
    let action = Attribute { key: String::from_str("action"), value: String::from_str("burn_balance") };
    let burn = Attribute { key: String::from_str("burn"), value: coin_text(&burned) };
    let attributes = vec![action, burn];
    Response { messages, attributes }
}

/// The handler's decision on a burn, before the authority answers: the response and
/// the new tally amount of `denom`. The tally is not touched.
fn plan_burn(tally: &BurnTally, env: &Env, info: &MessageInfo, denom: &String, balance: u128) -> (r:
    Result<(Response, u128), ContractError>)
    requires
        tally.wf(),
    ensures
        match burn_verdict(tally@, info.funds@, denom@, balance as nat, AuthorityAnswer::Accepted) {
            BurnVerdict::PaymentRejected => r matches Err(ContractError::PaymentRejected { reason })
                && payment_fault_fits(info.funds@, denom@, reason),
            BurnVerdict::Overflow => r matches Err(ContractError::ArithmeticOverflow),
            _ => r matches Ok((resp, total)) && is_burn_response(resp, env.contract_address@, denom@, balance)
                && total == amount_of(tally@, denom@) + balance,
        },
{
    if let Err(reason) = must_pay(info, denom) {
        return Err(ContractError::PaymentRejected { reason });
    }
    let current = tally.amount_burned(denom);
    match current.checked_add(balance) {
        None => Err(ContractError::ArithmeticOverflow),
        Some(total) => Ok((burn_response(env, denom, balance), total)),
    }
}

/// Sets the component up. It takes no funds; who calls does not matter.
pub fn instantiate(info: &MessageInfo, msg: InstantiateMsg) -> (r: Result<Response, ContractError>)
    ensures
        r is Ok <==> info.funds@.len() == 0,
        r matches Ok(resp) ==> resp.messages@.len() == 0 && resp.attributes@.len() == 0,
        r matches Err(e) ==> e matches ContractError::PaymentRejected {
            reason: PaymentRejection::NonPayable,
        },
{
    match nonpayable(info) {
        Err(reason) => Err(ContractError::PaymentRejected { reason }),
        Ok(()) => Ok(Response { messages: Vec::new(), attributes: Vec::new() }),
    }
}

/// Runs an operation as the handler does: a burn of the component's whole `balance`
/// of the denomination, paid for by exactly one non-zero coin of it. A non-zero
/// balance is added to the tally and handed to the issuance authority in the
/// response; the host discards the call if the authority refuses it.
pub fn execute(tally: &mut BurnTally, env: &Env, info: &MessageInfo, msg: ExecuteMsg, balance: u128) -> (r:
    Result<Response, ContractError>)
    requires
        old(tally).wf(),
    ensures
        final(tally).wf(),
        match msg {
            ExecuteMsg::BurnBalance { denom } => burn_settled(
                old(tally)@,
                final(tally)@,
                env.contract_address@,
                info.funds@,
                denom@,
                balance,
                AuthorityAnswer::Accepted,
                r,
            ),
        },
{
    match msg {
        ExecuteMsg::BurnBalance { denom } => {
            let (resp, total) = plan_burn(tally, env, info, &denom, balance)?;
            if balance > 0 {
                tally.record(&denom, total);
            }
            Ok(resp)
        },
    }
}

/// Runs an operation through to its commit: the handler, then the issuance
/// authority's `answer` to the burn instruction, if one was issued. A refusal fails
/// the whole call and the tally stays as it was.
pub fn execute_and_commit(
    tally: &mut BurnTally,
    env: &Env,
    info: &MessageInfo,
    msg: ExecuteMsg,
    balance: u128,
    answer: AuthorityAnswer,
) -> (r: Result<Response, ContractError>)
    requires
        old(tally).wf(),
    ensures
        final(tally).wf(),
        match msg {
            ExecuteMsg::BurnBalance { denom } => burn_settled(
                old(tally)@,
                final(tally)@,
                env.contract_address@,
                info.funds@,
                denom@,
                balance,
                answer,
                r,
            ),
        },
{
    match msg {
        ExecuteMsg::BurnBalance { denom } => {
            let (resp, total) = plan_burn(tally, env, info, &denom, balance)?;
            if balance > 0 {
                if answer == AuthorityAnswer::Denied {
                    return Err(ContractError::IssuanceAuthorityDenied { denom });
                }
                tally.record(&denom, total);
            }
            Ok(resp)
        },
    }
}

/// Answers a read request: the amount of the denomination burned so far, zero if
/// it was never burned.
pub fn query(tally: &BurnTally, msg: QueryMsg) -> (r: Coin)
    requires
        tally.wf(),
    ensures
        match msg {
            QueryMsg::AmountBurned { denom } => r.denom@ == denom@ && r.amount as nat == amount_of(
                tally@,
                denom@,
            ),
        },
{
    match msg {
        QueryMsg::AmountBurned { denom } => {
            let amount = tally.amount_burned(&denom);
            Coin { denom, amount }
        },
    }
}

} // verus!
