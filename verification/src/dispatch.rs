//! The bridge from a precompile to the host chain's own dispatch, under one gas budget.
//!
//! The host does the work that only it can do: it maps a weight to gas and
//! it runs the call. What is asked of it, in which order, and what becomes
//! of its answers is decided here, one step at a time: the embedder hands
//! each answer to [`RuntimeHelper::try_dispatch`] and does what the returned
//! action says, until the action is [`DispatchAction::Finish`].

use crate::gasometer::{GasLedger, Gasometer};
use crate::outcome::{
    failure_of, out_of_gas, reverted, EvmResult, ExitError, PrecompileFailure,
    PrecompileFailureView,
};
use vstd::prelude::*;
use vstd::slice::slice_to_vec;
use vstd::string::{StrSliceExecFns, StringSliceAdditionalSpecFns};
use vstd::utf8::encode_utf8;

verus! {

/// The host chain's unit of computational cost.
pub type Weight = u64;

/// What the host reports of a call that it ran.
#[derive(Clone, Debug, PartialEq, Eq)]
pub enum DispatchOutcome {
    /// The call went through; `actual_weight` is what it consumed, where the host says so.
    Succeeded { actual_weight: Option<Weight> },
    /// The host refused the call, for the reason described.
    Failed { description: String },
}

/// How far a bridged call has come.
#[derive(Clone, Copy, Debug, PartialEq, Eq)]
pub enum DispatchState {
    /// The call's weight is declared and nothing has been asked of the host.
    Declared { weight: Weight },
    /// The host has been asked what gas the declared weight stands for,
    /// of which no more than `gas_limit` can be paid.
    Pricing { weight: Weight, gas_limit: u64 },
    /// The host has been asked to run the call.
    Dispatching { weight: Weight },
    /// The host has been asked what gas the consumed weight stands for.
    Charging,
    /// The bridge has given its result.
    Finished,
}

/// What the embedder reports to the bridge.
#[derive(Clone, Debug, PartialEq, Eq)]
pub enum DispatchEvent {
    /// The bridge is to start.
    Started,
    /// The gas that the weight last asked about stands for.
    Gas(u64),
    /// The host ran the call.
    Dispatched(DispatchOutcome),
}

/// What the bridge asks of the embedder.
#[derive(Debug, PartialEq, Eq)]
pub enum DispatchAction {
    /// Map this weight to gas and report it with [`DispatchEvent::Gas`].
    ConvertWeight(Weight),
    /// Run the call and report it with [`DispatchEvent::Dispatched`].
    Dispatch,
    /// Stop: this is the result of the bridged call.
    Finish(EvmResult),
}

/// The mathematical value of a [`DispatchAction`].
pub ghost enum DispatchActionView {
    ConvertWeight(Weight),
    Dispatch,
    Finish(Option<PrecompileFailureView>),
}

impl View for DispatchAction {
    type V = DispatchActionView;

    open spec fn view(&self) -> DispatchActionView {
        match *self {
            DispatchAction::ConvertWeight(weight) => DispatchActionView::ConvertWeight(weight),
            DispatchAction::Dispatch => DispatchActionView::Dispatch,
            DispatchAction::Finish(result) => DispatchActionView::Finish(failure_of(result)),
        }
    }
}

/// One step of the bridge: where it stands afterwards, what it asks for, and its ledger.
pub ghost struct DispatchStep {
    pub state: DispatchState,
    pub action: DispatchActionView,
    pub ledger: GasLedger,
}

/// The message of the revert for a call that the host refused.
pub open spec fn dispatch_failure_message(description: Seq<char>) -> Seq<u8> {
    "Dispatched call failed with error: ".spec_bytes() + encode_utf8(description)
}

/// The failure that ends a run in which an event came out of order.
pub open spec fn out_of_order() -> PrecompileFailureView {
    PrecompileFailureView::Error { exit_status: ExitError::Other("dispatch event out of order") }
}

/// The step that ends the run with `failure` and leaves the ledger as it is.
pub open spec fn finish_with(failure: Option<PrecompileFailureView>, ledger: GasLedger) -> DispatchStep {
    DispatchStep {
        state: DispatchState::Finished,
        action: DispatchActionView::Finish(failure),
        ledger,
    }
}

/// What the bridge does on `event` in `state` with `ledger`.
///
/// - At the start, a ledger without a budget lets the call be run at once;
///   one with a budget has the declared weight priced first; an overdrawn
///   one ends the run out of gas.
/// - A price above what is left of the budget ends the run out of gas,
///   before anything is run; any other has the call run.
/// - A call that the host refused ends the run with a revert that carries
///   the host's description and bills what the ledger holds; one that went
///   through has the consumed weight priced, or the declared weight where
///   the host does not say what was consumed.
/// - That price is charged, and the charge's result ends the run.
/// - An event that the state does not wait for ends the run with an error.
pub open spec fn dispatch_step(
    state: DispatchState,
    event: DispatchEvent,
    ledger: GasLedger,
) -> DispatchStep {
    match (state, event) {
        (DispatchState::Declared { weight }, DispatchEvent::Started) => {
            if ledger.limit is None {
                DispatchStep {
                    state: DispatchState::Dispatching { weight },
                    action: DispatchActionView::Dispatch,
                    ledger,
                }
            } else {
                match ledger.remaining() {
                    Some(left) => DispatchStep {
                        state: DispatchState::Pricing { weight, gas_limit: left as u64 },
                        action: DispatchActionView::ConvertWeight(weight),
                        ledger,
                    },
                    None => finish_with(Some(out_of_gas()), ledger),
                }
            }
        },
        (DispatchState::Pricing { weight, gas_limit }, DispatchEvent::Gas(required_gas)) => {
            if required_gas > gas_limit {
                finish_with(Some(out_of_gas()), ledger)
            } else {
                DispatchStep {
                    state: DispatchState::Dispatching { weight },
                    action: DispatchActionView::Dispatch,
                    ledger,
                }
            }
        },
        (
            DispatchState::Dispatching { weight },
            DispatchEvent::Dispatched(DispatchOutcome::Failed { description }),
        ) => finish_with(
            Some(reverted(dispatch_failure_message(description@), ledger.used as u64)),
            ledger,
        ),
        (
            DispatchState::Dispatching { weight },
            DispatchEvent::Dispatched(DispatchOutcome::Succeeded { actual_weight }),
        ) => DispatchStep {
            state: DispatchState::Charging,
            action: DispatchActionView::ConvertWeight(
                match actual_weight {
                    Some(actual) => actual,
                    None => weight,
                },
            ),
            ledger,
        },
        (DispatchState::Charging, DispatchEvent::Gas(used_gas)) => finish_with(
            if ledger.affords(used_gas as nat) {
                None
            } else {
                Some(out_of_gas())
            },
            ledger.charge(used_gas as nat),
        ),
        _ => finish_with(Some(out_of_order()), ledger),
    }
}

/// The helper through which a precompile reaches the host chain.
#[derive(Clone, Copy, Debug)]
pub struct RuntimeHelper;

impl DispatchState {
    /// The state of a bridged call of which only the declared weight is known.
    pub fn new(weight: Weight) -> (r: DispatchState)
        ensures
            r == (DispatchState::Declared { weight }),
    {
        DispatchState::Declared { weight }
    }
}

impl RuntimeHelper {
    /// Takes the bridge one step further: from `state` and the embedder's
    /// `event` to the next state and what the embedder is to do next.
    /// Charges the ledger where the step says so.
    pub fn try_dispatch(
        state: DispatchState,
        event: DispatchEvent,
        gasometer: &mut Gasometer,
    ) -> (r: (DispatchState, DispatchAction))
        ensures
            r.0 == dispatch_step(state, event, old(gasometer)@).state,
            r.1@ == dispatch_step(state, event, old(gasometer)@).action,
            final(gasometer)@ == dispatch_step(state, event, old(gasometer)@).ledger,
    {
        proof {
            gasometer.lemma_view_bounds();
        }
        match (state, event) {
            (DispatchState::Declared { weight }, DispatchEvent::Started) => {
                match gasometer.remaining_gas() {
                    Ok(None) => (DispatchState::Dispatching { weight }, DispatchAction::Dispatch),
                    Ok(Some(gas_limit)) => (
                        DispatchState::Pricing { weight, gas_limit },
                        DispatchAction::ConvertWeight(weight),
                    ),
                    Err(e) => (DispatchState::Finished, DispatchAction::Finish(Err(e))),
                }
            },
            (DispatchState::Pricing { weight, gas_limit }, DispatchEvent::Gas(required_gas)) => {
                if required_gas > gas_limit {
                    (
                        DispatchState::Finished,
                        DispatchAction::Finish(
                            Err(PrecompileFailure::Error { exit_status: ExitError::OutOfGas }),
                        ),
                    )
                } else {
                    (DispatchState::Dispatching { weight }, DispatchAction::Dispatch)
                }
            },
            (
                DispatchState::Dispatching { weight },
                DispatchEvent::Dispatched(DispatchOutcome::Failed { description }),
            ) => {
                let mut message: Vec<u8> = "Dispatched call failed with error: ".as_bytes_vec();
                let mut tail: Vec<u8> = slice_to_vec(description.as_str().as_bytes());
                message.append(&mut tail);
                (
                    DispatchState::Finished,
                    DispatchAction::Finish(Err(gasometer.revert(message.as_slice()))),
                )
            },
            (
                DispatchState::Dispatching { weight },
                DispatchEvent::Dispatched(DispatchOutcome::Succeeded { actual_weight }),
            ) => {
                let used_weight: Weight = match actual_weight {
                    Some(actual) => actual,
                    None => weight,
                };
                (DispatchState::Charging, DispatchAction::ConvertWeight(used_weight))
            },
            (DispatchState::Charging, DispatchEvent::Gas(used_gas)) => {
                let charged = gasometer.record_cost(used_gas);
                (DispatchState::Finished, DispatchAction::Finish(charged))
            },
            _ => (
                DispatchState::Finished,
                DispatchAction::Finish(
                    Err(
                        PrecompileFailure::Error {
                            exit_status: ExitError::Other("dispatch event out of order"),
                        },
                    ),
                ),
            ),
        }
    }
}

} // verus!

verus! {

/// A host as the bridge sees it: its mapping from weight to gas, and what
/// it reports of the call when asked to run it.
pub ghost struct Host {
    pub gas_of: spec_fn(Weight) -> u64,
    pub outcome: DispatchOutcome,
}

/// What a bridged call comes to: whether the host was asked to run the
/// call, the failure if there is one, and the ledger afterwards.
pub ghost struct BridgedCall {
    pub dispatched: bool,
    pub failure: Option<PrecompileFailureView>,
    pub ledger: GasLedger,
}

/// What a call of declared weight `weight` comes to on `host`, for a
/// precompile whose ledger is `ledger`.
///
/// Under a budget the call is not run where the ledger is overdrawn or the
/// declared weight stands for more gas than is left: the result is an
/// out-of-gas error. Where the host refuses the call, the result is a
/// revert that bills what the ledger holds. Else the ledger is charged the
/// gas of the consumed weight, or of the declared weight where the host
/// reports none, and the result is that of the charge.
pub open spec fn bridged_call(ledger: GasLedger, weight: Weight, host: Host) -> BridgedCall {
    if ledger.limit is Some && (ledger.remaining() matches Some(left) ==> (host.gas_of)(weight)
        > left) {
        BridgedCall { dispatched: false, failure: Some(out_of_gas()), ledger }
    } else {
        match host.outcome {
            DispatchOutcome::Failed { description } => BridgedCall {
                dispatched: true,
                failure: Some(
                    reverted(dispatch_failure_message(description@), ledger.used as u64),
                ),
                ledger,
            },
            DispatchOutcome::Succeeded { actual_weight } => {
                let used_gas = (host.gas_of)(
                    match actual_weight {
                        Some(actual) => actual,
                        None => weight,
                    },
                );
                BridgedCall {
                    dispatched: true,
                    failure: if ledger.affords(used_gas as nat) {
                        None
                    } else {
                        Some(out_of_gas())
                    },
                    ledger: ledger.charge(used_gas as nat),
                }
            },
        }
    }
}

/// The event with which an embedder answers `action` from `host`.
pub open spec fn answer(host: Host, action: DispatchActionView) -> DispatchEvent {
    match action {
        DispatchActionView::ConvertWeight(weight) => DispatchEvent::Gas((host.gas_of)(weight)),
        _ => DispatchEvent::Dispatched(host.outcome),
    }
}

/// What the bridge comes to when it is stepped from `state` on `event`
/// and each of its actions is answered from `host`, if it finishes within
/// `steps` further steps.
pub open spec fn run(
    state: DispatchState,
    event: DispatchEvent,
    ledger: GasLedger,
    host: Host,
    steps: nat,
) -> Option<BridgedCall>
    decreases steps,
{
    let step = dispatch_step(state, event, ledger);
    match step.action {
        DispatchActionView::Finish(failure) => Some(
            BridgedCall { dispatched: false, failure, ledger: step.ledger },
        ),
        action => if steps == 0 {
            None
        } else {
            match run(step.state, answer(host, action), step.ledger, host, (steps - 1) as nat) {
                Some(rest) => Some(
                    BridgedCall {
                        dispatched: rest.dispatched || action is Dispatch,
                        failure: rest.failure,
                        ledger: rest.ledger,
                    },
                ),
                None => None,
            }
        },
    }
}

/// Stepped from its start and answered from a host, the bridge finishes
/// within four further steps, and comes to what [`bridged_call`] states:
/// no call is run that the budget cannot pay for, a refusal bills what
/// was charged before it, and a call that went through is charged the gas
/// of the weight it consumed.
pub proof fn lemma_run_is_bridged_call(ledger: GasLedger, weight: Weight, host: Host)
    requires
        ledger.used <= u64::MAX,
        ledger.limit matches Some(limit) ==> limit <= u64::MAX,
    ensures
        run(DispatchState::Declared { weight }, DispatchEvent::Started, ledger, host, 4) == Some(
            bridged_call(ledger, weight, host),
        ),
{
    reveal_with_fuel(run, 5);
}

} // verus!
