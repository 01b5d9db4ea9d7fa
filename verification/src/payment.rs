//! Charging a transaction's fee, to the designated payer where the call is
//! sponsored.
//!
//! The ledger is not part of this crate. Each operation of the protocol is
//! therefore a [`Step`]: either it is done, or it asks one thing of the
//! ledger, and the ledger's answer resolves the question into the next step.

use crate::registry::{Error, Sponsorship};
use vstd::prelude::*;

verus! {

/// An amount of the ledger's currency.
pub type Balance = u128;

/// One step of the protocol.
#[must_use]
#[derive(Debug, PartialEq, Eq)]
pub enum Step<Q, R> {
    /// Nothing more to ask: the operation ends with this result.
    Done(R),
    /// The ledger has to answer this before the operation can go on.
    Ask(Q),
}

/// What the ledger answers when asked whether an amount can be withdrawn.
#[derive(Clone, Copy, Debug, PartialEq, Eq)]
pub enum WithdrawConsequence {
    /// The amount is more than the account holds.
    BalanceLow,
    /// The account would cease to exist although it has to stay.
    WouldDie,
    /// The asset is not known to the ledger.
    UnknownAsset,
    /// An amount in the ledger would fall below zero.
    Underflow,
    /// An amount in the ledger would grow beyond its range.
    Overflow,
    /// Too little of what the account holds is free to be withdrawn.
    Frozen,
    /// The account would be emptied, and this much of it destroyed.
    ReducedToZero(Balance),
    /// The withdrawal would go through and the account live on.
    Success,
}

/// How exactly the ledger has to meet the amount it is asked for.
#[derive(Clone, Copy, Debug, PartialEq, Eq)]
pub enum Precision {
    /// The whole amount or nothing at all.
    Exact,
    /// As much of the amount as can be had.
    BestEffort,
}

/// What a withdrawal may do to the account it takes from.
#[derive(Clone, Copy, Debug, PartialEq, Eq)]
pub enum Preservation {
    /// The account may cease to exist.
    Expendable,
    /// The account has to stay, though dust may be taken from it.
    Protect,
    /// The account has to stay and to keep its minimum.
    Preserve,
}

/// With what privilege a withdrawal is made.
#[derive(Clone, Copy, Debug, PartialEq, Eq)]
pub enum Fortitude {
    /// With the privilege of any transaction.
    Polite,
    /// With the privilege of the system, against holds and freezes.
    Force,
}

/// Value that has left an account and is not yet accounted for. It cannot be
/// copied: settlement takes it, once.
#[must_use]
#[derive(Debug, PartialEq, Eq)]
pub struct Credit<AccountId> {
    who: AccountId,
    amount: Balance,
}

impl<AccountId> Credit<AccountId> {
    /// The account that the value was withdrawn from.
    pub closed spec fn payer(&self) -> AccountId {
        self.who
    }

    /// The value withdrawn.
    pub closed spec fn amount(&self) -> Balance {
        self.amount
    }

    /// The value withdrawn.
    pub fn peek(&self) -> (amount: Balance)
        ensures
            amount == self.amount(),
    {
        self.amount
    }
}

impl<AccountId: Copy> Credit<AccountId> {
    /// The account that the value was withdrawn from.
    pub fn who(&self) -> (who: AccountId)
        ensures
            who == self.payer(),
    {
        self.who
    }
}

/// Asks the ledger whether `amount` can be withdrawn from `who`.
#[derive(Debug, PartialEq, Eq)]
pub struct CanWithdraw<AccountId> {
    /// The account that would be taken from.
    pub who: AccountId,
    /// The amount that would be taken.
    pub amount: Balance,
}

/// Asks the ledger to withdraw `amount` from `who`.
#[derive(Debug, PartialEq, Eq)]
pub struct Withdraw<AccountId> {
    /// The account to take from.
    pub who: AccountId,
    /// The amount to take.
    pub amount: Balance,
    /// Whether less than `amount` will do.
    pub precision: Precision,
    /// What has to be left of the account.
    pub preservation: Preservation,
    /// The privilege to take with.
    pub force: Fortitude,
}

/// Asks the ledger what `paid.who()` holds in all. The answer decides whether
/// a refund is attempted at all.
#[derive(Debug, PartialEq, Eq)]
pub struct TotalBalance<AccountId> {
    /// What was withdrawn before the call ran.
    pub paid: Credit<AccountId>,
    /// What the payer gets back if it can be credited.
    pub refund: Balance,
    /// The tip promised with the transaction.
    pub tip: Balance,
}

/// Asks the ledger to credit `refund` to `paid.who()`. The answer is the
/// amount that was in fact credited.
#[derive(Debug, PartialEq, Eq)]
pub struct Deposit<AccountId> {
    /// What was withdrawn before the call ran.
    pub paid: Credit<AccountId>,
    /// What the payer is to get back.
    pub refund: Balance,
    /// Whether less than `refund` will do.
    pub precision: Precision,
    /// The tip promised with the transaction.
    pub tip: Balance,
}

/// What is left of a withdrawal once the refund is taken off, in the two
/// portions that are handed on: the fee first, then the tip.
#[derive(Clone, Copy, Debug, PartialEq, Eq)]
pub struct Settled {
    /// The portion that counts as fee.
    pub fee: Balance,
    /// The portion that counts as tip.
    pub tip: Balance,
}

/// How a withdrawal ends: with what is owed for the call, or with a refusal.
pub type Withdrawn<AccountId> = Result<Option<Credit<AccountId>>, Error>;

/// How a settlement ends: with nothing to hand on where nothing had been
/// withdrawn, else with the two portions, or with a refusal.
pub type Settlement = Result<Option<Settled>, Error>;

/// The account that is charged for a call: the designated payer where the
/// call is sponsored, the sender where it is not. A sponsored call without a
/// designated payer has nobody to charge.
pub open spec fn effective_payer<AccountId>(
    sponsored: bool,
    payer: Option<AccountId>,
    who: AccountId,
) -> Option<AccountId> {
    if sponsored {
        payer
    } else {
        Some(who)
    }
}

/// The pre-flight check of `fee` against what `who` holds: a fee of zero
/// passes unasked, any other is put to the ledger.
pub open spec fn can_withdraw_step<AccountId>(who: AccountId, fee: Balance) -> Step<
    CanWithdraw<AccountId>,
    Result<(), Error>,
> {
    if fee == 0 {
        Step::Done(Ok(()))
    } else {
        Step::Ask(CanWithdraw { who, amount: fee })
    }
}

/// The pre-flight check passes on `Success` and on nothing else.
pub open spec fn can_withdraw_verdict(consequence: WithdrawConsequence) -> Result<(), Error> {
    if consequence is Success {
        Ok(())
    } else {
        Err(Error::PaymentInvalid)
    }
}

/// The request to take the whole of `fee` from `who` or nothing, to leave
/// the account alive with its minimum, and to respect holds and freezes.
pub open spec fn exact_withdrawal<AccountId>(who: AccountId, fee: Balance) -> Withdraw<AccountId> {
    Withdraw {
        who,
        amount: fee,
        precision: Precision::Exact,
        preservation: Preservation::Preserve,
        force: Fortitude::Polite,
    }
}

/// The request to give `query.refund` back to the account that paid, as far
/// as the ledger can.
pub open spec fn best_effort_refund<AccountId>(query: TotalBalance<AccountId>) -> Deposit<
    AccountId,
> {
    Deposit {
        paid: query.paid,
        refund: query.refund,
        precision: Precision::BestEffort,
        tip: query.tip,
    }
}

/// The withdrawal that a fee calls for: none for a fee of zero, else the
/// whole fee from the effective payer, and a refusal where there is none.
pub open spec fn withdraw_step<AccountId>(
    sponsored: bool,
    payer: Option<AccountId>,
    who: AccountId,
    fee: Balance,
) -> Step<Withdraw<AccountId>, Withdrawn<AccountId>> {
    if fee == 0 {
        Step::Done(Ok(None))
    } else {
        match effective_payer(sponsored, payer, who) {
            Some(account) => Step::Ask(exact_withdrawal(account, fee)),
            None => Step::Done(Err(Error::PaymentInvalid)),
        }
    }
}

/// What a payer is owed back: what was withdrawn beyond the corrected fee,
/// and nothing where the corrected fee is the larger.
pub open spec fn refund_due(paid: Balance, corrected_fee: Balance) -> Balance {
    if paid > corrected_fee {
        (paid - corrected_fee) as Balance
    } else {
        0
    }
}

/// A refund is attempted only for an account that holds something.
pub open spec fn refund_allowed(total_balance: Balance) -> bool {
    total_balance > 0
}

/// The tip portion of a settled amount: the tip, as far as the amount goes.
pub open spec fn tip_portion(settled: Balance, tip: Balance) -> Balance {
    if tip <= settled {
        tip
    } else {
        settled
    }
}

/// Takes the refund off what was withdrawn and splits the rest into tip and
/// fee. A refund larger than the withdrawal cannot be reconciled.
pub open spec fn settlement(paid: Balance, refunded: Balance, tip: Balance) -> Result<
    Settled,
    Error,
> {
    if refunded > paid {
        Err(Error::PaymentInvalid)
    } else {
        let settled = (paid - refunded) as Balance;
        Ok(
            Settled {
                fee: (settled - tip_portion(settled, tip)) as Balance,
                tip: tip_portion(settled, tip),
            },
        )
    }
}

/// A settlement's result with the portions to hand on.
pub open spec fn handed_on(result: Result<Settled, Error>) -> Settlement {
    match result {
        Ok(settled) => Ok(Some(settled)),
        Err(e) => Err(e),
    }
}

/// What the ledger credited in answer to a deposit: the amount it reports,
/// or nothing where it reports a failure.
pub open spec fn refunded<E>(outcome: Result<Balance, E>) -> Balance {
    match outcome {
        Ok(amount) => amount,
        Err(_) => 0,
    }
}

/// Settlement begins by asking what the payer holds, unless nothing was
/// withdrawn: then it is done and hands nothing on.
pub open spec fn correct_step<AccountId>(
    corrected_fee: Balance,
    tip: Balance,
    already_withdrawn: Option<Credit<AccountId>>,
) -> Step<TotalBalance<AccountId>, Settlement> {
    match already_withdrawn {
        Some(paid) => Step::Ask(
            TotalBalance { paid, refund: refund_due(paid.amount(), corrected_fee), tip },
        ),
        None => Step::Done(Ok(None)),
    }
}

/// With the payer's holdings known: ask for the refund where the payer holds
/// something, else settle without one.
pub open spec fn total_balance_step<AccountId>(
    query: TotalBalance<AccountId>,
    total_balance: Balance,
) -> Step<Deposit<AccountId>, Settlement> {
    if refund_allowed(total_balance) {
        Step::Ask(best_effort_refund(query))
    } else {
        Step::Done(handed_on(settlement(query.paid.amount(), 0, query.tip)))
    }
}

/// With the ledger's answer to the deposit: what it credited is taken off
/// the withdrawal, and the rest is split.
pub open spec fn deposit_verdict<AccountId, E>(
    deposit: Deposit<AccountId>,
    outcome: Result<Balance, E>,
) -> Settlement {
    handed_on(settlement(deposit.paid.amount(), refunded(outcome), deposit.tip))
}

/// Charges transaction fees, to the designated payer of a [`Sponsorship`]
/// where the call is sponsored.
pub struct SponsoredFungibleAdapter;

impl SponsoredFungibleAdapter {
    /// Decides whom to charge `fee` for `call`, sent by `who`.
    ///
    /// A fee of zero charges nobody and is done, with no liability, whatever
    /// `tip` is. A sponsored call is charged to the designated payer, and
    /// refused where there is none. Any other call is charged to `who`.
    pub fn withdraw_fee<Call, AccountId: Copy, S: Sponsorship<Call, AccountId>>(
        sponsorship: &S,
        who: &AccountId,
        call: &Call,
        fee: Balance,
        tip: Balance,
    ) -> (step: Step<Withdraw<AccountId>, Withdrawn<AccountId>>)
        ensures
            step == withdraw_step(sponsorship.sponsors(call), sponsorship.payer(), *who, fee),
            fee == 0 ==> step == Step::<Withdraw<AccountId>, Withdrawn<AccountId>>::Done(Ok(None)),
            fee > 0 && sponsorship.sponsors(call) && sponsorship.payer() is None ==> step
                == Step::<Withdraw<AccountId>, Withdrawn<AccountId>>::Done(
                Err(Error::PaymentInvalid),
            ),
    {
        if fee == 0 {
            return Step::Done(Ok(None));
        }
        let mut who_pays: AccountId = *who;
        if sponsorship.is_call_sponsored(call) {
            match sponsorship.get_payer() {
                Some(payer) => {
                    who_pays = payer;
                },
                None => {
                    return Step::Done(Err(Error::PaymentInvalid));
                },
            }
        }
        Step::Ask(
            Withdraw {
                who: who_pays,
                amount: fee,
                precision: Precision::Exact,
                preservation: Preservation::Preserve,
                force: Fortitude::Polite,
            },
        )
    }

    /// Checks ahead of the withdrawal that `who` itself could pay `fee`.
    /// Sponsorship plays no part in this check. A fee of zero passes without
    /// a question to the ledger.
    pub fn can_withdraw_fee<AccountId: Copy>(who: &AccountId, fee: Balance) -> (step: Step<
        CanWithdraw<AccountId>,
        Result<(), Error>,
    >)
        ensures
            step == can_withdraw_step(*who, fee),
    {
        if fee == 0 {
            return Step::Done(Ok(()));
        }
        Step::Ask(CanWithdraw { who: *who, amount: fee })
    }

    /// Begins the settlement of what was withdrawn, now that the call has
    /// run and cost `corrected_fee`.
    ///
    /// Where nothing was withdrawn there is nothing to settle. Else the payer
    /// is owed what was withdrawn beyond `corrected_fee`; where the call cost
    /// more than was withdrawn, nothing is owed and nothing more is taken.
    pub fn correct_and_deposit_fee<AccountId: Copy>(
        corrected_fee: Balance,
        tip: Balance,
        already_withdrawn: Option<Credit<AccountId>>,
    ) -> (step: Step<TotalBalance<AccountId>, Settlement>)
        ensures
            step == correct_step(corrected_fee, tip, already_withdrawn),
    {
        match already_withdrawn {
            Some(paid) => {
                let refund: Balance = paid.peek().saturating_sub(corrected_fee);
                Step::Ask(TotalBalance { paid, refund, tip })
            },
            None => Step::Done(Ok(None)),
        }
    }
}

impl<AccountId: Copy> CanWithdraw<AccountId> {
    /// Ends the pre-flight check with the ledger's answer: `Success` passes,
    /// every other answer refuses the payment.
    pub fn resolve(self, consequence: WithdrawConsequence) -> (verdict: Result<(), Error>)
        ensures
            verdict == can_withdraw_verdict(consequence),
    {
        match consequence {
            WithdrawConsequence::Success => Ok(()),
            _ => Err(Error::PaymentInvalid),
        }
    }
}

impl<AccountId: Copy> Withdraw<AccountId> {
    /// Ends the withdrawal with the ledger's answer. The amount that the
    /// ledger reports as withdrawn becomes the liability, held against the
    /// account it was taken from. A failure refuses the payment.
    pub fn resolve<E>(self, outcome: Result<Balance, E>) -> (withdrawn: Withdrawn<AccountId>)
        ensures
            match outcome {
                Ok(amount) => withdrawn matches Ok(Some(paid)) && paid.payer() == self.who
                    && paid.amount() == amount,
                Err(_) => withdrawn == Withdrawn::<AccountId>::Err(Error::PaymentInvalid),
            },
    {
        match outcome {
            Ok(amount) => Ok(Some(Credit { who: self.who, amount })),
            Err(_) => Err(Error::PaymentInvalid),
        }
    }
}

impl<AccountId: Copy> TotalBalance<AccountId> {
    /// The account whose holdings are asked for: the one that paid.
    pub fn who(&self) -> (who: AccountId)
        ensures
            who == self.paid.payer(),
    {
        self.paid.who()
    }

    /// Goes on with what the payer holds in all. An account that holds
    /// something is refunded; one that holds nothing is not, and the whole
    /// withdrawal is settled.
    pub fn resolve(self, total_balance: Balance) -> (step: Step<Deposit<AccountId>, Settlement>)
        ensures
            step == total_balance_step(self, total_balance),
    {
        if may_refund(total_balance) {
            Step::Ask(
                Deposit {
                    paid: self.paid,
                    refund: self.refund,
                    precision: Precision::BestEffort,
                    tip: self.tip,
                },
            )
        } else {
            Step::Done(hand_on(settle(self.paid, 0, self.tip)))
        }
    }
}

impl<AccountId: Copy> Deposit<AccountId> {
    /// The account to credit: the one that paid.
    pub fn who(&self) -> (who: AccountId)
        ensures
            who == self.paid.payer(),
    {
        self.paid.who()
    }

    /// Ends the settlement with the ledger's answer. What the ledger reports
    /// as credited is the refund; a failure counts as a refund of nothing.
    pub fn resolve<E>(self, outcome: Result<Balance, E>) -> (result: Settlement)
        ensures
            result == deposit_verdict(self, outcome),
    {
        let refund: Balance = match outcome {
            Ok(amount) => amount,
            Err(_) => 0,
        };
        hand_on(settle(self.paid, refund, self.tip))
    }
}

/// Wraps the portions of a settlement for the sink that receives them.
fn hand_on(result: Result<Settled, Error>) -> (wrapped: Settlement)
    ensures
        wrapped == handed_on(result),
{
    match result {
        Ok(settled) => Ok(Some(settled)),
        Err(e) => Err(e),
    }
}

/// Whether an account that holds `total_balance` is refunded at all.
pub fn may_refund(total_balance: Balance) -> (allowed: bool)
    ensures
        allowed == refund_allowed(total_balance),
{
    total_balance > 0
}

/// Consumes the withdrawn value: takes `refunded` off it and splits the rest
/// into the tip portion, which is `tip` as far as the rest goes, and the fee
/// portion, which is what then remains.
pub fn settle<AccountId: Copy>(paid: Credit<AccountId>, refunded: Balance, tip: Balance) -> (result:
    Result<Settled, Error>)
    ensures
        result == settlement(paid.amount(), refunded, tip),
{
    if refunded > paid.amount {
        return Err(Error::PaymentInvalid);
    }
    let settled: Balance = paid.amount - refunded;
    let tip_part: Balance = if tip <= settled {
        tip
    } else {
        settled
    };
    Ok(Settled { fee: settled - tip_part, tip: tip_part })
}

/// Two credits for the same amount against the same account are the same.
pub proof fn lemma_credit_is_payer_and_amount<AccountId>(
    a: Credit<AccountId>,
    b: Credit<AccountId>,
)
    requires
        a.payer() == b.payer(),
        a.amount() == b.amount(),
    ensures
        a == b,
{
}

/// The two portions of a settlement add up to what was withdrawn less what
/// was refunded; the tip portion is the tip, capped at that amount.
pub proof fn lemma_settlement_splits_exactly(paid: Balance, refund: Balance, tip: Balance)
    requires
        refund <= paid,
    ensures
        settlement(paid, refund, tip) matches Ok(portions) && portions.fee + portions.tip == paid
            - refund && portions.tip == tip_portion((paid - refund) as Balance, tip),
{
}

} // verus!
