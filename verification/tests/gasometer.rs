use mychain_precompiles::context::Context;
use mychain_precompiles::gasometer::{FunctionModifier, Gasometer};
use mychain_precompiles::outcome::{ExitError, ExitRevert, Log, PrecompileFailure};
use mychain_precompiles::primitives::{Address, H256, U256};

fn out_of_gas() -> PrecompileFailure {
    PrecompileFailure::Error { exit_status: ExitError::OutOfGas }
}

fn revert(message: &str, cost: u64) -> PrecompileFailure {
    PrecompileFailure::Revert {
        exit_status: ExitRevert::Reverted,
        output: message.as_bytes().to_vec(),
        cost,
    }
}

fn context(value: u64) -> Context {
    Context {
        address: Address { bytes: [1; 20] },
        caller: Address { bytes: [2; 20] },
        apparent_value: U256 { limbs: [value, 0, 0, 0] },
    }
}

fn log(topics: usize, data_len: usize) -> Log {
    Log {
        address: Address { bytes: [0; 20] },
        topics: vec![H256 { bytes: [7; 32] }; topics],
        data: vec![9; data_len],
    }
}

#[test]
fn new_ledger_has_nothing_used() {
    assert_eq!(Gasometer::new(Some(100)).used_gas(), 0);
    assert_eq!(Gasometer::new(None).used_gas(), 0);
    assert_eq!(Gasometer::new(Some(0)).remaining_gas(), Ok(Some(0)));
}

#[test]
fn successful_charges_add_up() {
    let mut gasometer = Gasometer::new(Some(1_000));
    let costs = [0u64, 1, 250, 49, 700];
    let mut sum = 0;
    for cost in costs {
        assert_eq!(gasometer.record_cost(cost), Ok(()));
        sum += cost;
        assert_eq!(gasometer.used_gas(), sum);
    }
    assert_eq!(gasometer.used_gas(), 1_000);
    assert_eq!(gasometer.remaining_gas(), Ok(Some(0)));
}

#[test]
fn charge_up_to_the_limit_succeeds_and_one_more_fails() {
    let mut gasometer = Gasometer::new(Some(10));
    assert_eq!(gasometer.record_cost(10), Ok(()));
    assert_eq!(gasometer.record_cost(1), Err(out_of_gas()));
}

#[test]
fn charge_over_the_limit_fails_and_is_applied() {
    let mut gasometer = Gasometer::new(Some(10));
    assert_eq!(gasometer.record_cost(6), Ok(()));
    assert_eq!(gasometer.record_cost(5), Err(out_of_gas()));
    assert_eq!(gasometer.used_gas(), 11);
    assert_eq!(gasometer.remaining_gas(), Err(out_of_gas()));
}

#[test]
fn overdrawn_ledger_refuses_every_further_charge() {
    let mut gasometer = Gasometer::new(Some(3));
    assert_eq!(gasometer.record_cost(4), Err(out_of_gas()));
    assert_eq!(gasometer.record_cost(0), Err(out_of_gas()));
    assert_eq!(gasometer.record_cost(1), Err(out_of_gas()));
    assert_eq!(gasometer.used_gas(), 5);
}

#[test]
fn charge_that_overflows_the_counter_fails_and_is_not_applied() {
    let mut gasometer = Gasometer::new(None);
    assert_eq!(gasometer.record_cost(u64::MAX - 1), Ok(()));
    assert_eq!(gasometer.record_cost(2), Err(out_of_gas()));
    assert_eq!(gasometer.used_gas(), u64::MAX - 1);
    assert_eq!(gasometer.record_cost(1), Ok(()));
    assert_eq!(gasometer.used_gas(), u64::MAX);
}

#[test]
fn unmetered_ledger_passes_any_sum_that_fits() {
    let mut gasometer = Gasometer::new(None);
    for _ in 0..4 {
        assert_eq!(gasometer.record_cost(u64::MAX / 4), Ok(()));
    }
    assert_eq!(gasometer.used_gas(), (u64::MAX / 4) * 4);
    assert_eq!(gasometer.remaining_gas(), Ok(None));
}

#[test]
fn log_cost_of_two_topics_and_ten_bytes() {
    let mut gasometer = Gasometer::new(Some(100_000));
    assert_eq!(gasometer.record_log_costs_manual(2, 10), Ok(()));
    assert_eq!(gasometer.used_gas(), 1205);
}

#[test]
fn log_cost_of_an_empty_log_is_the_flat_cost() {
    let mut gasometer = Gasometer::new(Some(375));
    assert_eq!(gasometer.record_log_costs_manual(0, 0), Ok(()));
    assert_eq!(gasometer.used_gas(), 375);
}

#[test]
fn log_cost_adds_to_what_was_charged() {
    let mut gasometer = Gasometer::new(None);
    assert_eq!(gasometer.record_cost(1_000), Ok(()));
    assert_eq!(gasometer.record_log_costs_manual(4, 100), Ok(()));
    assert_eq!(gasometer.used_gas(), 1_000 + 375 + 375 * 4 + 8 * 100);
}

#[test]
fn log_cost_that_does_not_fit_charges_nothing() {
    let mut gasometer = Gasometer::new(None);
    assert_eq!(gasometer.record_log_costs_manual(usize::MAX, 0), Err(out_of_gas()));
    assert_eq!(gasometer.used_gas(), 0);
    assert_eq!(gasometer.record_log_costs_manual(0, usize::MAX), Err(out_of_gas()));
    assert_eq!(gasometer.used_gas(), 0);
}

#[test]
fn log_cost_stops_at_the_first_charge_that_fails() {
    let mut gasometer = Gasometer::new(Some(400));
    assert_eq!(gasometer.record_log_costs_manual(1, 5), Err(out_of_gas()));
    assert_eq!(gasometer.used_gas(), 750);

    let mut gasometer = Gasometer::new(Some(374));
    assert_eq!(gasometer.record_log_costs_manual(1, 5), Err(out_of_gas()));
    assert_eq!(gasometer.used_gas(), 375);

    let mut gasometer = Gasometer::new(Some(789));
    assert_eq!(gasometer.record_log_costs_manual(1, 5), Err(out_of_gas()));
    assert_eq!(gasometer.used_gas(), 790);

    let mut gasometer = Gasometer::new(Some(790));
    assert_eq!(gasometer.record_log_costs_manual(1, 5), Ok(()));
    assert_eq!(gasometer.used_gas(), 790);
}

#[test]
fn logs_are_charged_in_order() {
    let logs = [log(2, 10), log(0, 0), log(1, 3)];
    let mut gasometer = Gasometer::new(Some(10_000));
    assert_eq!(gasometer.record_log_costs(&logs), Ok(()));
    assert_eq!(gasometer.used_gas(), 1205 + 375 + (375 + 375 + 24));
}

#[test]
fn no_logs_cost_nothing() {
    let mut gasometer = Gasometer::new(Some(0));
    assert_eq!(gasometer.record_log_costs(&[]), Ok(()));
    assert_eq!(gasometer.used_gas(), 0);
}

#[test]
fn logs_after_the_first_that_fails_are_not_charged() {
    let logs = [log(2, 10), log(1, 3), log(0, 0)];
    let mut gasometer = Gasometer::new(Some(1_300));
    assert_eq!(gasometer.record_log_costs(&logs), Err(out_of_gas()));
    assert_eq!(gasometer.used_gas(), 1205 + 375);
}

#[test]
fn remaining_gas_is_limit_less_used() {
    let mut gasometer = Gasometer::new(Some(1_000));
    assert_eq!(gasometer.remaining_gas(), Ok(Some(1_000)));
    assert_eq!(gasometer.record_cost(400), Ok(()));
    assert_eq!(gasometer.remaining_gas(), Ok(Some(600)));
}

#[test]
fn remaining_gas_without_limit_is_none() {
    let mut gasometer = Gasometer::new(None);
    assert_eq!(gasometer.record_cost(400), Ok(()));
    assert_eq!(gasometer.remaining_gas(), Ok(None));
}

#[test]
fn revert_bills_what_was_charged() {
    let mut gasometer = Gasometer::new(Some(1_000));
    assert_eq!(gasometer.revert(b"early"), revert("early", 0));
    assert_eq!(gasometer.record_cost(120), Ok(()));
    assert_eq!(gasometer.record_cost(3), Ok(()));
    assert_eq!(gasometer.revert(b"declined"), revert("declined", 123));
    assert_eq!(gasometer.revert(b""), revert("", 123));
}

#[test]
fn modifier_matrix() {
    let not_static = "can't call non-static function in static context";
    let not_payable = "function is not payable";
    let gasometer = Gasometer::new(None);
    let check = |modifier: FunctionModifier, is_static: bool, value: u64| {
        gasometer.check_function_modifier(&context(value), is_static, modifier)
    };

    assert_eq!(check(FunctionModifier::View, true, 0), Ok(()));
    assert_eq!(check(FunctionModifier::View, true, 5), Err(revert(not_payable, 0)));
    assert_eq!(check(FunctionModifier::View, false, 0), Ok(()));
    assert_eq!(check(FunctionModifier::View, false, 5), Err(revert(not_payable, 0)));

    assert_eq!(check(FunctionModifier::NonPayable, true, 0), Err(revert(not_static, 0)));
    assert_eq!(check(FunctionModifier::NonPayable, true, 5), Err(revert(not_static, 0)));
    assert_eq!(check(FunctionModifier::NonPayable, false, 0), Ok(()));
    assert_eq!(check(FunctionModifier::NonPayable, false, 5), Err(revert(not_payable, 0)));

    assert_eq!(check(FunctionModifier::Payable, true, 0), Err(revert(not_static, 0)));
    assert_eq!(check(FunctionModifier::Payable, true, 5), Err(revert(not_static, 0)));
    assert_eq!(check(FunctionModifier::Payable, false, 0), Ok(()));
    assert_eq!(check(FunctionModifier::Payable, false, 5), Ok(()));
}

#[test]
fn modifier_refusal_bills_what_was_charged() {
    let mut gasometer = Gasometer::new(Some(500));
    assert_eq!(gasometer.record_cost(42), Ok(()));
    assert_eq!(
        gasometer.check_function_modifier(&context(1), false, FunctionModifier::NonPayable),
        Err(revert("function is not payable", 42))
    );
}

#[test]
fn value_in_a_high_limb_counts_as_funds() {
    let gasometer = Gasometer::new(None);
    let mut context = context(0);
    context.apparent_value = U256 { limbs: [0, 0, 0, 1] };
    assert_eq!(
        gasometer.check_function_modifier(&context, false, FunctionModifier::NonPayable),
        Err(revert("function is not payable", 0))
    );
    assert!(U256::zero().is_zero());
    assert!(!context.apparent_value.is_zero());
}
