//! What a precompile is to its caller, and precompiles whose cost grows with their input.

use crate::context::Context;
use crate::outcome::{
    out_of_gas, result_view, ExitError, ExitSucceed, LogView, PrecompileFailure,
    PrecompileFailureView, PrecompileOutput, PrecompileOutputView, PrecompileResult,
};
use std::marker::PhantomData;
use vstd::prelude::*;

verus! {

/// A natively implemented contract.
pub trait Precompile {
    /// Runs the precompile on `input`, within `target_gas` if it is given.
    fn execute(
        input: &[u8],
        target_gas: Option<u64>,
        context: &Context,
        is_static: bool,
    ) -> PrecompileResult;
}

/// A precompile that costs a base amount and a further amount for each
/// 32-byte word of its input.
pub trait LinearCostPrecompile {
    /// The cost of any call.
    const BASE: u64;

    /// The cost of each word of input.
    const WORD: u64;

    /// Runs the precompile on `input`, which has been charged `cost`.
    fn execute(input: &[u8], cost: u64) -> Result<(ExitSucceed, Vec<u8>), PrecompileFailure>;
}

/// The number of 32-byte words that hold `len` bytes; the sum that rounds
/// up stops at the largest 64-bit number.
pub open spec fn words(len: u64) -> nat {
    (if len + 31 > u64::MAX {
        u64::MAX as nat
    } else {
        (len + 31) as nat
    }) / 32
}

/// The cost of a call with `len` bytes of input.
pub open spec fn linear_cost(len: u64, base: u64, word: u64) -> nat {
    (base + word * words(len)) as nat
}

/// The cost can be charged: it fits 64 bits and does not exceed the budget.
pub open spec fn linear_cost_affordable(
    target_gas: Option<u64>,
    len: u64,
    base: u64,
    word: u64,
) -> bool {
    &&& linear_cost(len, base, word) <= u64::MAX
    &&& target_gas matches Some(limit) ==> linear_cost(len, base, word) <= limit
}

/// The output of a call that returned `output` with status `exit_status`
/// for `cost`, without logs.
pub open spec fn output_without_logs(
    exit_status: ExitSucceed,
    cost: u64,
    output: Seq<u8>,
) -> PrecompileOutputView {
    PrecompileOutputView { exit_status, cost, output, logs: Seq::<LogView>::empty() }
}

/// The cost of a call with `len` bytes of input, or an out-of-gas error
/// where the cost does not fit 64 bits or exceeds the budget.
pub fn ensure_linear_cost(target_gas: Option<u64>, len: u64, base: u64, word: u64) -> (r: Result<
    u64,
    PrecompileFailure,
>)
    ensures
        match r {
            Ok(cost) => linear_cost_affordable(target_gas, len, base, word) && cost
                == linear_cost(len, base, word),
            Err(e) => !linear_cost_affordable(target_gas, len, base, word) && e@ == out_of_gas(),
        },
{
    let word_count: u64 = len.saturating_add(31) / 32;
    let word_cost: u64 = match word.checked_mul(word_count) {
        Some(product) => product,
        None => {
            return Err(PrecompileFailure::Error { exit_status: ExitError::OutOfGas });
        },
    };
    let cost: u64 = match base.checked_add(word_cost) {
        Some(sum) => sum,
        None => {
            return Err(PrecompileFailure::Error { exit_status: ExitError::OutOfGas });
        },
    };
    if let Some(limit) = target_gas {
        if cost > limit {
            return Err(PrecompileFailure::Error { exit_status: ExitError::OutOfGas });
        }
    }
    Ok(cost)
}

/// The result of a call that was charged `cost`, from what its handler
/// returned: the handler's output for that cost and without logs, or the
/// handler's failure as it is.
pub fn linear_result(
    cost: u64,
    handled: Result<(ExitSucceed, Vec<u8>), PrecompileFailure>,
) -> (r: PrecompileResult)
    ensures
        result_view(r) == match handled {
            Ok((exit_status, output)) => Ok::<PrecompileOutputView, PrecompileFailureView>(
                output_without_logs(exit_status, cost, output@),
            ),
            Err(e) => Err::<PrecompileOutputView, PrecompileFailureView>(e@),
        },
{
    match handled {
        Ok((exit_status, output)) => {
            let out = PrecompileOutput { exit_status, cost, output, logs: Vec::new() };
            assert(out@.logs =~= Seq::<LogView>::empty());
            Ok(out)
        },
        Err(e) => Err(e),
    }
}

/// The precompile that charges the linear cost of `T` and then runs its handler.
pub struct Linear<T> {
    handler: PhantomData<T>,
}

impl<T: LinearCostPrecompile> Precompile for Linear<T> {
    /// Charges the linear cost of `input`, and runs the handler only where
    /// it can be paid. What the handler returns decides the rest.
    fn execute(input: &[u8], target_gas: Option<u64>, context: &Context, is_static: bool) -> (r:
        PrecompileResult)
        ensures
            !linear_cost_affordable(target_gas, input@.len() as u64, T::BASE, T::WORD)
                ==> result_view(r) == Err::<PrecompileOutputView, PrecompileFailureView>(
                out_of_gas(),
            ),
            r matches Ok(out) ==> out@.cost == linear_cost(
                input@.len() as u64,
                T::BASE,
                T::WORD,
            ) && out@.logs.len() == 0,
    {
        let cost: u64 = ensure_linear_cost(target_gas, input.len() as u64, T::BASE, T::WORD)?;
        let handled = <T as LinearCostPrecompile>::execute(input, cost);
        linear_result(cost, handled)
    }
}

} // verus!
