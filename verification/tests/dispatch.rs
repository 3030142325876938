use mychain_precompiles::dispatch::{
    DispatchAction, DispatchEvent, DispatchOutcome, DispatchState, RuntimeHelper, Weight,
};
use mychain_precompiles::gasometer::Gasometer;
use mychain_precompiles::outcome::{EvmResult, ExitError, ExitRevert, PrecompileFailure};

struct Run {
    result: EvmResult,
    dispatched: bool,
    priced: Vec<Weight>,
}

fn run(
    gasometer: &mut Gasometer,
    weight: Weight,
    gas_per_weight: u64,
    outcome: DispatchOutcome,
) -> Run {
    let mut state = DispatchState::new(weight);
    let mut event = DispatchEvent::Started;
    let mut dispatched = false;
    let mut priced = vec![];
    for _ in 0..5 {
        let (next, action) = RuntimeHelper::try_dispatch(state, event, gasometer);
        state = next;
        event = match action {
            DispatchAction::ConvertWeight(asked) => {
                priced.push(asked);
                DispatchEvent::Gas(asked * gas_per_weight)
            }
            DispatchAction::Dispatch => {
                dispatched = true;
                DispatchEvent::Dispatched(outcome.clone())
            }
            DispatchAction::Finish(result) => {
                assert_eq!(state, DispatchState::Finished);
                return Run { result, dispatched, priced };
            }
        };
    }
    panic!("the bridge did not finish");
}

fn out_of_gas() -> PrecompileFailure {
    PrecompileFailure::Error { exit_status: ExitError::OutOfGas }
}

fn went_through(actual_weight: Option<Weight>) -> DispatchOutcome {
    DispatchOutcome::Succeeded { actual_weight }
}

#[test]
fn call_is_charged_the_weight_it_consumed() {
    let mut gasometer = Gasometer::new(Some(1_000));
    assert_eq!(gasometer.record_cost(100), Ok(()));
    let run = run(&mut gasometer, 300, 3, went_through(Some(120)));
    assert_eq!(run.result, Ok(()));
    assert!(run.dispatched);
    assert_eq!(run.priced, vec![300, 120]);
    assert_eq!(gasometer.used_gas(), 100 + 360);
}

#[test]
fn call_is_charged_the_declared_weight_where_none_is_reported() {
    let mut gasometer = Gasometer::new(Some(1_000));
    let run = run(&mut gasometer, 300, 3, went_through(None));
    assert_eq!(run.result, Ok(()));
    assert_eq!(run.priced, vec![300, 300]);
    assert_eq!(gasometer.used_gas(), 900);
}

#[test]
fn call_that_cannot_be_paid_for_is_not_run() {
    let mut gasometer = Gasometer::new(Some(1_000));
    assert_eq!(gasometer.record_cost(101), Ok(()));
    let run = run(&mut gasometer, 300, 3, went_through(Some(1)));
    assert_eq!(run.result, Err(out_of_gas()));
    assert!(!run.dispatched);
    assert_eq!(run.priced, vec![300]);
    assert_eq!(gasometer.used_gas(), 101);
}

#[test]
fn call_that_takes_all_that_is_left_is_run() {
    let mut gasometer = Gasometer::new(Some(1_000));
    assert_eq!(gasometer.record_cost(100), Ok(()));
    let run = run(&mut gasometer, 300, 3, went_through(None));
    assert_eq!(run.result, Ok(()));
    assert!(run.dispatched);
    assert_eq!(gasometer.used_gas(), 1_000);
}

#[test]
fn call_that_consumed_more_than_is_left_is_out_of_gas() {
    let mut gasometer = Gasometer::new(Some(1_000));
    let run = run(&mut gasometer, 300, 3, went_through(Some(400)));
    assert_eq!(run.result, Err(out_of_gas()));
    assert!(run.dispatched);
    assert_eq!(gasometer.used_gas(), 1_200);
}

#[test]
fn overdrawn_ledger_ends_the_bridge_at_once() {
    let mut gasometer = Gasometer::new(Some(10));
    assert!(gasometer.record_cost(11).is_err());
    let run = run(&mut gasometer, 1, 1, went_through(None));
    assert_eq!(run.result, Err(out_of_gas()));
    assert!(!run.dispatched);
    assert_eq!(run.priced, Vec::<Weight>::new());
}

#[test]
fn unmetered_call_is_run_without_being_priced_first() {
    let mut gasometer = Gasometer::new(None);
    let run = run(&mut gasometer, 300, 3, went_through(Some(7)));
    assert_eq!(run.result, Ok(()));
    assert!(run.dispatched);
    assert_eq!(run.priced, vec![7]);
    assert_eq!(gasometer.used_gas(), 21);
}

#[test]
fn refused_call_reverts_with_the_host_s_description() {
    let mut gasometer = Gasometer::new(Some(1_000));
    assert_eq!(gasometer.record_cost(55), Ok(()));
    let refused = DispatchOutcome::Failed { description: "BadOrigin".to_string() };
    let run = run(&mut gasometer, 300, 3, refused);
    assert_eq!(
        run.result,
        Err(PrecompileFailure::Revert {
            exit_status: ExitRevert::Reverted,
            output: b"Dispatched call failed with error: BadOrigin".to_vec(),
            cost: 55,
        })
    );
    assert!(run.dispatched);
    assert_eq!(run.priced, vec![300]);
    assert_eq!(gasometer.used_gas(), 55);
}

#[test]
fn refusal_described_outside_ascii_is_carried_as_utf8() {
    let mut gasometer = Gasometer::new(None);
    let refused = DispatchOutcome::Failed { description: "Módulo { índice: 3 }".to_string() };
    let run = run(&mut gasometer, 1, 1, refused);
    assert_eq!(
        run.result,
        Err(PrecompileFailure::Revert {
            exit_status: ExitRevert::Reverted,
            output: "Dispatched call failed with error: Módulo { índice: 3 }".as_bytes().to_vec(),
            cost: 0,
        })
    );
}

#[test]
fn steps_of_a_metered_call() {
    let mut gasometer = Gasometer::new(Some(50));
    let (state, action) =
        RuntimeHelper::try_dispatch(DispatchState::new(4), DispatchEvent::Started, &mut gasometer);
    assert_eq!(state, DispatchState::Pricing { weight: 4, gas_limit: 50 });
    assert_eq!(action, DispatchAction::ConvertWeight(4));
    let (state, action) = RuntimeHelper::try_dispatch(state, DispatchEvent::Gas(50), &mut gasometer);
    assert_eq!(state, DispatchState::Dispatching { weight: 4 });
    assert_eq!(action, DispatchAction::Dispatch);
    let (state, action) = RuntimeHelper::try_dispatch(
        state,
        DispatchEvent::Dispatched(went_through(Some(2))),
        &mut gasometer,
    );
    assert_eq!(state, DispatchState::Charging);
    assert_eq!(action, DispatchAction::ConvertWeight(2));
    let (state, action) = RuntimeHelper::try_dispatch(state, DispatchEvent::Gas(25), &mut gasometer);
    assert_eq!(state, DispatchState::Finished);
    assert_eq!(action, DispatchAction::Finish(Ok(())));
    assert_eq!(gasometer.used_gas(), 25);
}

#[test]
fn event_out_of_order_ends_the_bridge_with_an_error() {
    let out_of_order = DispatchAction::Finish(Err(PrecompileFailure::Error {
        exit_status: ExitError::Other("dispatch event out of order"),
    }));
    let mut gasometer = Gasometer::new(Some(50));
    let cases = [
        (DispatchState::new(4), DispatchEvent::Gas(1)),
        (DispatchState::new(4), DispatchEvent::Dispatched(went_through(None))),
        (DispatchState::Pricing { weight: 4, gas_limit: 9 }, DispatchEvent::Started),
        (DispatchState::Dispatching { weight: 4 }, DispatchEvent::Gas(1)),
        (DispatchState::Charging, DispatchEvent::Dispatched(went_through(None))),
        (DispatchState::Finished, DispatchEvent::Started),
        (DispatchState::Finished, DispatchEvent::Gas(1)),
    ];
    for (state, event) in cases {
        let (next, action) = RuntimeHelper::try_dispatch(state, event, &mut gasometer);
        assert_eq!(next, DispatchState::Finished);
        assert_eq!(action, out_of_order);
        assert_eq!(gasometer.used_gas(), 0);
    }
}
