use spontra::payment::{
    may_refund, settle, CanWithdraw, Deposit, Fortitude, Precision, Preservation, Settled,
    TotalBalance, Withdraw, WithdrawConsequence,
};
use spontra::{
    CallMetadata, Config, Credit, Error, Event, Pallet, RawOrigin, SponsoredFungibleAdapter,
    Sponsorship, Step,
};
use std::collections::HashMap;

const A: u64 = 1;
const B: u64 = 2;

fn call_y() -> CallMetadata {
    CallMetadata { function_name: "call_y", pallet_name: "pallet_x" }
}

fn registry(payer: Option<u64>, sponsored: bool) -> Pallet<u64> {
    let mut spontra = Pallet::new(Config { max_name_len: 256 });
    if let Some(account) = payer {
        spontra.set_payer_key(RawOrigin::Root, Some(account)).unwrap();
    }
    if sponsored {
        spontra
            .sponsor_call(RawOrigin::Root, (b"pallet_x".to_vec(), b"call_y".to_vec()))
            .unwrap();
    }
    spontra
}

/// The one kind of withdrawal that the protocol asks for.
fn withdraw(who: u64, amount: u128) -> Withdraw<u64> {
    Withdraw {
        who,
        amount,
        precision: Precision::Exact,
        preservation: Preservation::Preserve,
        force: Fortitude::Polite,
    }
}

/// The one kind of deposit that the protocol asks for.
fn deposit(paid: Credit<u64>, refund: u128, tip: u128) -> Deposit<u64> {
    Deposit { paid, refund, precision: Precision::BestEffort, tip }
}

fn credit(who: u64, amount: u128) -> Credit<u64> {
    withdraw(who, amount).resolve::<()>(Ok(amount)).unwrap().unwrap()
}

/// A ledger for the tests: balances by account, and a minimum that a
/// withdrawal has to leave behind.
struct Ledger {
    balances: HashMap<u64, u128>,
    minimum: u128,
}

impl Ledger {
    fn new(balances: &[(u64, u128)]) -> Ledger {
        Ledger { balances: balances.iter().copied().collect(), minimum: 1 }
    }

    fn total_balance(&self, who: u64) -> u128 {
        self.balances.get(&who).copied().unwrap_or(0)
    }

    fn withdraw(&mut self, request: &Withdraw<u64>) -> Result<u128, ()> {
        assert_eq!(request.precision, Precision::Exact);
        assert_eq!(request.preservation, Preservation::Preserve);
        assert_eq!(request.force, Fortitude::Polite);
        let held = self.total_balance(request.who);
        if held < request.amount || held - request.amount < self.minimum {
            return Err(());
        }
        self.balances.insert(request.who, held - request.amount);
        Ok(request.amount)
    }

    fn deposit(&mut self, request: &Deposit<u64>) -> Result<u128, ()> {
        assert_eq!(request.precision, Precision::BestEffort);
        let held = self.total_balance(request.who());
        self.balances.insert(request.who(), held + request.refund);
        Ok(request.refund)
    }
}

/// Runs one transaction against the ledger, as the dispatch pipeline would.
fn run(
    spontra: &Pallet<u64>,
    ledger: &mut Ledger,
    who: u64,
    fee: u128,
    tip: u128,
    corrected_fee: u128,
) -> Result<Option<Settled>, Error> {
    let withdrawn = match SponsoredFungibleAdapter::withdraw_fee(spontra, &who, &call_y(), fee, tip)
    {
        Step::Done(result) => result,
        Step::Ask(request) => {
            let outcome = ledger.withdraw(&request);
            request.resolve(outcome)
        },
    }?;
    match SponsoredFungibleAdapter::correct_and_deposit_fee(corrected_fee, tip, withdrawn) {
        Step::Done(result) => result,
        Step::Ask(query) => {
            let held = ledger.total_balance(query.who());
            match query.resolve(held) {
                Step::Done(result) => result,
                Step::Ask(request) => {
                    let outcome = ledger.deposit(&request);
                    request.resolve(outcome)
                },
            }
        },
    }
}

#[test]
fn a_sponsored_call_is_paid_by_the_payer_end_to_end() {
    let mut spontra: Pallet<u64> = Pallet::new(Config { max_name_len: 256 });
    let done = spontra.set_payer_key(RawOrigin::Root, Some(A)).unwrap();
    assert_eq!(done.event, Event::PayerKeyUpdated { old: None, new: A });
    let done = spontra
        .sponsor_call(RawOrigin::Root, (b"pallet_x".to_vec(), b"call_y".to_vec()))
        .unwrap();
    assert_eq!(
        done.event,
        Event::CallSponsored { full_name: (b"pallet_x".to_vec(), b"call_y".to_vec()) }
    );
    assert!(spontra.is_call_sponsored(&call_y()));

    let mut ledger = Ledger::new(&[(A, 1000), (B, 500)]);
    let request = match SponsoredFungibleAdapter::withdraw_fee(&spontra, &B, &call_y(), 100, 0) {
        Step::Ask(request) => request,
        Step::Done(_) => panic!("a fee of 100 has to be withdrawn"),
    };
    assert_eq!(request, withdraw(A, 100));
    let outcome = ledger.withdraw(&request);
    let paid = request.resolve(outcome).unwrap();
    assert_eq!(ledger.total_balance(A), 900);
    assert_eq!(ledger.total_balance(B), 500);

    let query = match SponsoredFungibleAdapter::correct_and_deposit_fee(80, 0, paid) {
        Step::Ask(query) => query,
        Step::Done(_) => panic!("a liability has to be settled"),
    };
    assert_eq!(query.who(), A);
    assert_eq!(query.refund, 20);
    let request = match query.resolve(ledger.total_balance(A)) {
        Step::Ask(request) => request,
        Step::Done(_) => panic!("an account that holds 900 is refunded"),
    };
    assert_eq!(request.who(), A);
    assert_eq!(request.refund, 20);
    let outcome = ledger.deposit(&request);
    let portions = request.resolve(outcome).unwrap().unwrap();
    assert_eq!(portions.fee + portions.tip, 80);
    assert_eq!(portions, Settled { fee: 80, tip: 0 });
    assert_eq!(ledger.total_balance(A), 920);
    assert_eq!(ledger.total_balance(B), 500);
}

#[test]
fn value_is_conserved_over_a_cycle() {
    let spontra = registry(Some(A), true);
    let mut ledger = Ledger::new(&[(A, 1000), (B, 500)]);
    let portions = run(&spontra, &mut ledger, B, 100, 30, 60).unwrap().unwrap();
    // 40 go back to the payer, 60 are handed on, 30 of them as tip
    assert_eq!(portions, Settled { fee: 30, tip: 30 });
    assert_eq!(ledger.total_balance(A), 1000 - (100 - 40));
    assert_eq!(ledger.total_balance(B), 500);
}

#[test]
fn an_unsponsored_call_is_paid_by_its_sender() {
    let spontra = registry(Some(A), false);
    let mut ledger = Ledger::new(&[(A, 1000), (B, 500)]);
    assert_eq!(
        SponsoredFungibleAdapter::withdraw_fee(&spontra, &B, &call_y(), 100, 0),
        Step::Ask(withdraw(B, 100))
    );
    let portions = run(&spontra, &mut ledger, B, 100, 0, 80).unwrap().unwrap();
    assert_eq!(portions, Settled { fee: 80, tip: 0 });
    assert_eq!(ledger.total_balance(A), 1000);
    assert_eq!(ledger.total_balance(B), 420);
}

#[test]
fn an_unsponsored_call_needs_no_payer() {
    let spontra = registry(None, false);
    assert_eq!(
        SponsoredFungibleAdapter::withdraw_fee(&spontra, &B, &call_y(), 5, 0),
        Step::Ask(withdraw(B, 5))
    );
}

#[test]
fn a_fee_of_zero_withdraws_nothing() {
    for (payer, sponsored) in [(None, false), (None, true), (Some(A), false), (Some(A), true)] {
        let spontra = registry(payer, sponsored);
        assert_eq!(
            SponsoredFungibleAdapter::withdraw_fee(&spontra, &B, &call_y(), 0, 0),
            Step::Done(Ok(None))
        );
        // the tip plays no part
        assert_eq!(
            SponsoredFungibleAdapter::withdraw_fee(&spontra, &B, &call_y(), 0, 25),
            Step::Done(Ok(None))
        );
    }
    let spontra = registry(None, true);
    let mut ledger = Ledger::new(&[(A, 1000), (B, 500)]);
    assert_eq!(run(&spontra, &mut ledger, B, 0, 25, 0), Ok(None));
    assert_eq!(ledger.total_balance(A), 1000);
    assert_eq!(ledger.total_balance(B), 500);
}

#[test]
fn a_sponsored_call_without_payer_is_refused() {
    let spontra = registry(None, true);
    assert_eq!(
        SponsoredFungibleAdapter::withdraw_fee(&spontra, &B, &call_y(), 100, 0),
        Step::Done(Err(Error::PaymentInvalid))
    );
    let mut ledger = Ledger::new(&[(A, 1000), (B, 500)]);
    assert_eq!(run(&spontra, &mut ledger, B, 100, 0, 80), Err(Error::PaymentInvalid));
    assert_eq!(ledger.total_balance(A), 1000);
    assert_eq!(ledger.total_balance(B), 500);
}

#[test]
fn an_oversized_call_is_charged_to_the_payer() {
    let mut spontra: Pallet<u64> = Pallet::new(Config { max_name_len: 4 });
    spontra.set_payer_key(RawOrigin::Root, Some(A)).unwrap();
    assert_eq!(
        SponsoredFungibleAdapter::withdraw_fee(&spontra, &B, &call_y(), 10, 0),
        Step::Ask(withdraw(A, 10))
    );
}

#[test]
fn a_failed_withdrawal_refuses_the_payment() {
    let request = withdraw(A, 100);
    assert_eq!(request.resolve(Err("insufficient funds")), Err(Error::PaymentInvalid));
    let spontra = registry(Some(A), true);
    let mut ledger = Ledger::new(&[(A, 50), (B, 500)]);
    assert_eq!(run(&spontra, &mut ledger, B, 100, 0, 80), Err(Error::PaymentInvalid));
    assert_eq!(ledger.total_balance(A), 50);
    assert_eq!(ledger.total_balance(B), 500);
}

#[test]
fn a_withdrawal_becomes_a_liability() {
    let paid = withdraw(A, 100).resolve::<()>(Ok(100)).unwrap().unwrap();
    assert_eq!(paid.who(), A);
    assert_eq!(paid.peek(), 100);
    // the liability is what the ledger reports
    let paid = withdraw(B, 100).resolve::<()>(Ok(99)).unwrap().unwrap();
    assert_eq!(paid.who(), B);
    assert_eq!(paid.peek(), 99);
}

#[test]
fn can_withdraw_fee_passes_a_fee_of_zero_unasked() {
    assert_eq!(SponsoredFungibleAdapter::can_withdraw_fee(&B, 0), Step::Done(Ok(())));
}

#[test]
fn can_withdraw_fee_asks_about_the_sender() {
    assert_eq!(
        SponsoredFungibleAdapter::can_withdraw_fee(&B, 100),
        Step::Ask(CanWithdraw { who: B, amount: 100 })
    );
}

#[test]
fn can_withdraw_fee_passes_on_success_only() {
    let ask = || CanWithdraw { who: B, amount: 100 };
    assert_eq!(ask().resolve(WithdrawConsequence::Success), Ok(()));
    for consequence in [
        WithdrawConsequence::BalanceLow,
        WithdrawConsequence::WouldDie,
        WithdrawConsequence::UnknownAsset,
        WithdrawConsequence::Underflow,
        WithdrawConsequence::Overflow,
        WithdrawConsequence::Frozen,
        WithdrawConsequence::ReducedToZero(0),
        WithdrawConsequence::ReducedToZero(5),
    ] {
        assert_eq!(ask().resolve(consequence), Err(Error::PaymentInvalid));
    }
}

#[test]
fn nothing_withdrawn_means_nothing_to_settle() {
    assert_eq!(
        SponsoredFungibleAdapter::correct_and_deposit_fee::<u64>(80, 10, None),
        Step::Done(Ok(None))
    );
}

#[test]
fn the_refund_is_what_was_withdrawn_beyond_the_corrected_fee() {
    let refund = |paid: u128, corrected: u128| {
        match SponsoredFungibleAdapter::correct_and_deposit_fee(corrected, 0, Some(credit(A, paid)))
        {
            Step::Ask(query) => query.refund,
            Step::Done(_) => panic!("a liability has to be settled"),
        }
    };
    assert_eq!(refund(100, 80), 20);
    assert_eq!(refund(100, 100), 0);
    assert_eq!(refund(100, 0), 100);
    // a call that cost more than was withdrawn: nothing back, nothing more taken
    assert_eq!(refund(100, 130), 0);
    assert_eq!(refund(u128::MAX, 1), u128::MAX - 1);
}

#[test]
fn settlement_asks_for_the_balance_of_the_account_that_paid() {
    assert_eq!(
        SponsoredFungibleAdapter::correct_and_deposit_fee(80, 7, Some(credit(A, 100))),
        Step::Ask(TotalBalance { paid: credit(A, 100), refund: 20, tip: 7 })
    );
}

#[test]
fn an_empty_account_gets_no_refund() {
    assert!(!may_refund(0));
    assert!(may_refund(1));
    assert!(may_refund(u128::MAX));
    let query = TotalBalance { paid: credit(A, 100), refund: 20, tip: 5 };
    assert_eq!(query.resolve(0), Step::Done(Ok(Some(Settled { fee: 95, tip: 5 }))));
    let query = TotalBalance { paid: credit(A, 100), refund: 20, tip: 5 };
    assert_eq!(
        query.resolve(1),
        Step::Ask(deposit(credit(A, 100), 20, 5))
    );
}

#[test]
fn a_failed_deposit_counts_as_no_refund() {
    let request = deposit(credit(A, 100), 20, 5);
    assert_eq!(request.resolve(Err("cannot create")), Ok(Some(Settled { fee: 95, tip: 5 })));
}

#[test]
fn a_partial_deposit_is_taken_off_as_it_came() {
    let request = deposit(credit(A, 100), 20, 5);
    assert_eq!(request.resolve::<()>(Ok(12)), Ok(Some(Settled { fee: 83, tip: 5 })));
}

#[test]
fn a_refund_beyond_the_withdrawal_cannot_be_reconciled() {
    let request = deposit(credit(A, 100), 20, 5);
    assert_eq!(request.resolve::<()>(Ok(101)), Err(Error::PaymentInvalid));
    assert_eq!(settle(credit(A, 100), 101, 0), Err(Error::PaymentInvalid));
}

#[test]
fn the_settled_amount_splits_into_tip_and_fee() {
    assert_eq!(settle(credit(A, 100), 20, 0), Ok(Settled { fee: 80, tip: 0 }));
    assert_eq!(settle(credit(A, 100), 20, 30), Ok(Settled { fee: 50, tip: 30 }));
    assert_eq!(settle(credit(A, 100), 20, 80), Ok(Settled { fee: 0, tip: 80 }));
    // the tip is capped at what is left
    assert_eq!(settle(credit(A, 100), 20, 81), Ok(Settled { fee: 0, tip: 80 }));
    assert_eq!(settle(credit(A, 100), 20, u128::MAX), Ok(Settled { fee: 0, tip: 80 }));
    assert_eq!(settle(credit(A, 100), 100, 10), Ok(Settled { fee: 0, tip: 0 }));
    assert_eq!(settle(credit(A, 100), 0, 10), Ok(Settled { fee: 90, tip: 10 }));
    assert_eq!(
        settle(credit(A, u128::MAX), 0, 1),
        Ok(Settled { fee: u128::MAX - 1, tip: 1 })
    );
}

#[test]
fn the_refund_goes_to_the_payer_not_to_the_sender() {
    let spontra = registry(Some(A), true);
    let mut ledger = Ledger::new(&[(A, 1000), (B, 0)]);
    let portions = run(&spontra, &mut ledger, B, 100, 0, 80).unwrap().unwrap();
    assert_eq!(portions, Settled { fee: 80, tip: 0 });
    assert_eq!(ledger.total_balance(A), 920);
    assert_eq!(ledger.total_balance(B), 0);
}
