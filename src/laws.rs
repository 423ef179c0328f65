use crate::contract::{burn_settled, burn_verdict, BurnVerdict};
use crate::error::ContractError;
use crate::msg::{AuthorityAnswer, Coin, Response};
use crate::payment::pays_exactly;
use crate::state::{amount_of, burn_step};
use vstd::prelude::*;

verus! {

/// The tally after a sequence of successful burns, each a denomination and the
/// balance burned of it.
pub open spec fn apply_burns(m: Map<Seq<char>, nat>, burns: Seq<(Seq<char>, nat)>) -> Map<
    Seq<char>,
    nat,
>
    decreases burns.len(),
{
    if burns.len() == 0 {
        m
    } else {
        burn_step(apply_burns(m, burns.drop_last()), burns.last().0, burns.last().1)
    }
}

/// The sum of the amounts burned of `denom` in a sequence of burns.
pub open spec fn burned_of(burns: Seq<(Seq<char>, nat)>, denom: Seq<char>) -> nat
    decreases burns.len(),
{
    if burns.len() == 0 {
        0
    } else {
        burned_of(burns.drop_last(), denom) + if burns.last().0 == denom {
            burns.last().1
        } else {
            0
        }
    }
}

/// A call that succeeds raises the tally of its denomination by exactly the balance
/// it burned (nothing when that balance is zero) and leaves every other
/// denomination alone; a call that fails leaves the whole tally as it was. So no
/// call ever lowers the tally of any denomination.
pub proof fn settled_call_moves_tally_by_balance(
    before: Map<Seq<char>, nat>,
    after: Map<Seq<char>, nat>,
    contract: Seq<char>,
    funds: Seq<Coin>,
    denom: Seq<char>,
    balance: u128,
    answer: AuthorityAnswer,
    r: Result<Response, ContractError>,
)
    requires
        burn_settled(before, after, contract, funds, denom, balance, answer, r),
    ensures
        r is Err ==> after == before,
        r is Ok ==> amount_of(after, denom) == amount_of(before, denom) + balance,
        r is Ok ==> forall|other: Seq<char>|
            other != denom ==> amount_of(after, other) == amount_of(before, other),
        balance == 0 ==> after == before,
        forall|any: Seq<char>| amount_of(after, any) >= amount_of(before, any),
{
}

/// After any sequence of successful burns, the tally of each denomination is what
/// it was before plus the sum of the balances burned of that denomination, however
/// burns of other denominations were interleaved.
pub proof fn burns_accumulate(m: Map<Seq<char>, nat>, burns: Seq<(Seq<char>, nat)>, denom: Seq<char>)
    ensures
        amount_of(apply_burns(m, burns), denom) == amount_of(m, denom) + burned_of(burns, denom),
    decreases burns.len(),
{
    if burns.len() > 0 {
        burns_accumulate(m, burns.drop_last(), denom);
    }
}

/// A denomination that no burn touched reads zero on a tally that started empty.
pub proof fn never_burned_reads_zero(burns: Seq<(Seq<char>, nat)>, denom: Seq<char>)
    requires
        burned_of(burns, denom) == 0,
    ensures
        amount_of(apply_burns(Map::empty(), burns), denom) == 0,
{
    burns_accumulate(Map::empty(), burns, denom);
}

/// A burn whose funds hold no non-zero coin of the denomination, or any coin of
/// another one, is rejected for its payment and changes nothing, whatever the
/// authority would answer.
pub proof fn unpaid_burn_is_rejected(
    before: Map<Seq<char>, nat>,
    after: Map<Seq<char>, nat>,
    contract: Seq<char>,
    funds: Seq<Coin>,
    denom: Seq<char>,
    balance: u128,
    answer: AuthorityAnswer,
    r: Result<Response, ContractError>,
)
    requires
        (forall|i: int| 0 <= i < funds.len() && funds[i].denom@ == denom ==> funds[i].amount == 0)
            || (exists|i: int| 0 <= i < funds.len() && funds[i].denom@ != denom),
        burn_settled(before, after, contract, funds, denom, balance, answer, r),
    ensures
        burn_verdict(before, funds, denom, balance as nat, answer) == BurnVerdict::PaymentRejected,
        after == before,
        r matches Err(ContractError::PaymentRejected { .. }),
{
    if pays_exactly(funds, denom) {
        assert(funds[0].denom@ == denom);
    }
}

/// With the payment right and room in the tally, a non-zero balance is burned
/// exactly when the authority accepts: a refusal fails the call with
/// `IssuanceAuthorityDenied` and keeps the tally, and the same call accepted succeeds.
pub proof fn authority_decides(
    m: Map<Seq<char>, nat>,
    funds: Seq<Coin>,
    denom: Seq<char>,
    balance: u128,
)
    requires
        pays_exactly(funds, denom),
        balance > 0,
        amount_of(m, denom) + balance <= u128::MAX,
    ensures
        burn_verdict(m, funds, denom, balance as nat, AuthorityAnswer::Denied)
            == BurnVerdict::AuthorityDenied,
        burn_verdict(m, funds, denom, balance as nat, AuthorityAnswer::Accepted)
            == BurnVerdict::Burned,
        forall|after: Map<Seq<char>, nat>, contract: Seq<char>, r: Result<Response, ContractError>|
            burn_settled(m, after, contract, funds, denom, balance, AuthorityAnswer::Denied, r)
                ==> after == m && r matches Err(ContractError::IssuanceAuthorityDenied { .. }),
{
}

} // verus!
