//! Conservation of value: what a withdrawal and its settlement do to the
//! accounts of a ledger that carries out what the protocol asks of it.

use crate::payment::{
    correct_step, deposit_verdict, effective_payer, refund_allowed, refunded, total_balance_step,
    withdraw_step, Balance, Credit, Settlement, Step, Withdraw, Withdrawn,
};
use crate::registry::Error;
use vstd::prelude::*;

verus! {

/// How a settlement ends, given what the ledger answers along the way:
/// `total_balance` to the question what the payer holds, `deposit` to the
/// request to credit the refund. An answer that is never asked for plays no
/// part.
pub open spec fn settled<AccountId, E>(
    corrected_fee: Balance,
    tip: Balance,
    already_withdrawn: Option<Credit<AccountId>>,
    total_balance: Balance,
    deposit: Result<Balance, E>,
) -> Settlement {
    match correct_step(corrected_fee, tip, already_withdrawn) {
        Step::Done(result) => result,
        Step::Ask(query) => match total_balance_step(query, total_balance) {
            Step::Done(result) => result,
            Step::Ask(request) => deposit_verdict(request, deposit),
        },
    }
}

/// The refund that a settlement brings about: what the ledger credited,
/// where the payer held something and was therefore refunded at all.
pub open spec fn refund_applied<E>(total_balance: Balance, deposit: Result<Balance, E>) -> Balance {
    if refund_allowed(total_balance) {
        refunded(deposit)
    } else {
        0
    }
}

/// What accounts hold after `amount` has left `who`.
pub open spec fn debited<AccountId>(
    holdings: Map<AccountId, int>,
    who: AccountId,
    amount: Balance,
) -> Map<AccountId, int> {
    holdings.insert(who, holdings[who] - amount)
}

/// What accounts hold after `amount` has come to `who`.
pub open spec fn credited<AccountId>(
    holdings: Map<AccountId, int>,
    who: AccountId,
    amount: Balance,
) -> Map<AccountId, int> {
    holdings.insert(who, holdings[who] + amount)
}

/// What accounts hold once a withdrawal step is over, on a ledger that does
/// what it is asked and reports it truly: a step that asks nothing changes
/// nothing, nor does a withdrawal that fails; one that goes through takes
/// what it reports from the account that the request names.
pub open spec fn holdings_withdrawn<AccountId, E>(
    holdings: Map<AccountId, int>,
    step: Step<Withdraw<AccountId>, Withdrawn<AccountId>>,
    outcome: Result<Balance, E>,
) -> Map<AccountId, int> {
    match (step, outcome) {
        (Step::Ask(request), Ok(amount)) => debited(holdings, request.who, amount),
        _ => holdings,
    }
}

/// What accounts hold once a settlement is over, on such a ledger: the one
/// change is the credit that answers the deposit request, where the
/// settlement comes to ask for one, to the account that the request names.
pub open spec fn holdings_settled<AccountId, E>(
    holdings: Map<AccountId, int>,
    corrected_fee: Balance,
    tip: Balance,
    already_withdrawn: Option<Credit<AccountId>>,
    total_balance: Balance,
    deposit: Result<Balance, E>,
) -> Map<AccountId, int> {
    match correct_step(corrected_fee, tip, already_withdrawn) {
        Step::Done(_) => holdings,
        Step::Ask(query) => match total_balance_step(query, total_balance) {
            Step::Done(_) => holdings,
            Step::Ask(request) => credited(holdings, request.paid.payer(), refunded(deposit)),
        },
    }
}

/// A fee of zero is never put to the ledger: the withdrawal is done at once,
/// with no liability, and no account changes, whoever would have paid.
pub proof fn lemma_zero_fee_touches_nothing<AccountId, E>(
    holdings: Map<AccountId, int>,
    sponsored: bool,
    payer: Option<AccountId>,
    who: AccountId,
    outcome: Result<Balance, E>,
)
    ensures
        withdraw_step(sponsored, payer, who, 0) == Step::<
            Withdraw<AccountId>,
            Withdrawn<AccountId>,
        >::Done(Ok(None)),
        holdings_withdrawn(holdings, withdraw_step(sponsored, payer, who, 0), outcome) == holdings,
        settled(0, 0, None::<Credit<AccountId>>, 0, outcome) == Settlement::Ok(None),
{
}

/// A sponsored call without a designated payer is refused before anything is
/// asked of the ledger: no account changes, the sender's least of all.
pub proof fn lemma_unfunded_sponsorship_is_refused<AccountId, E>(
    holdings: Map<AccountId, int>,
    who: AccountId,
    fee: Balance,
    outcome: Result<Balance, E>,
)
    requires
        fee > 0,
    ensures
        withdraw_step(true, None, who, fee) == Step::<
            Withdraw<AccountId>,
            Withdrawn<AccountId>,
        >::Done(Err(Error::PaymentInvalid)),
        holdings_withdrawn(holdings, withdraw_step(true, None::<AccountId>, who, fee), outcome)
            == holdings,
{
}

/// Conservation of value over a withdrawal and its settlement.
///
/// Take a fee above zero, a withdrawal from the account that `withdraw_fee`
/// chose, and a settlement that went through. Then the portions handed on add
/// up to what was withdrawn less the refund, and the payer ends up holding
/// less by exactly that amount. No other account changes: where the payer is
/// the sponsor, the sender's holdings stay as they were. What was withdrawn
/// is the fee itself wherever the ledger took the exact amount, as the
/// request asks it to.
pub proof fn lemma_cycle_conserves_value<AccountId, E>(
    holdings: Map<AccountId, int>,
    sponsored: bool,
    payer: Option<AccountId>,
    who: AccountId,
    fee: Balance,
    tip: Balance,
    paid: Credit<AccountId>,
    corrected_fee: Balance,
    total_balance: Balance,
    deposit: Result<Balance, E>,
)
    requires
        withdraw_step(sponsored, payer, who, fee) matches Step::Ask(withdraw) && paid.payer()
            == withdraw.who,
        settled(corrected_fee, tip, Some(paid), total_balance, deposit) is Ok,
    ensures
        effective_payer(sponsored, payer, who) == Some(paid.payer()),
        settled(corrected_fee, tip, Some(paid), total_balance, deposit) matches Ok(Some(portions))
            && portions.fee + portions.tip == paid.amount() - refund_applied(
            total_balance,
            deposit,
        ),
        ({
            let withdrawn = holdings_withdrawn(
                holdings,
                withdraw_step(sponsored, payer, who, fee),
                Ok::<Balance, E>(paid.amount()),
            );
            let after = holdings_settled(
                withdrawn,
                corrected_fee,
                tip,
                Some(paid),
                total_balance,
                deposit,
            );
            &&& after[paid.payer()] == holdings[paid.payer()] - (paid.amount() - refund_applied(
                total_balance,
                deposit,
            ))
            &&& forall|other: AccountId| other != paid.payer() ==> after[other] == holdings[other]
        }),
{
}

} // verus!
