//! A precompile that is paid for in advance, by the number of rounds that its input asks for.

use crate::context::Context;
use crate::outcome::{
    out_of_gas, result_view, ExitError, ExitSucceed, LogView, PrecompileFailure,
    PrecompileFailureView, PrecompileOutput, PrecompileOutputView, PrecompileResult,
};
use crate::precompile::output_without_logs;
use crate::prepay_gas::greeting;
use crate::selector::selector_of;
use vstd::prelude::*;
use vstd::string::StrSliceExecFns;

verus! {

/// The pricing of the BLAKE2 compression function.
pub struct Blake2F;

impl Blake2F {
    /// The cost of one round.
    pub const GAS_COST_PER_ROUND: u64 = 1;
}

/// The precompile that greets its caller for the price of the rounds asked for.
pub struct TestPC1;

/// The number of rounds that `input` asks for: its first four bytes, most
/// significant first.
pub open spec fn rounds_of(input: Seq<u8>) -> u32
    recommends
        input.len() >= 4,
{
    selector_of(input)
}

/// What a call with `input` returns under `target_gas`: an out-of-gas error
/// where the budget is less than the price of the rounds, else the greeting
/// for that price.
pub open spec fn prepaid_result(input: Seq<u8>, target_gas: Option<u64>) -> Result<
    PrecompileOutputView,
    PrecompileFailureView,
>
    recommends
        input.len() >= 4,
{
    if target_gas matches Some(gas_left) && gas_left < rounds_of(input)
        * Blake2F::GAS_COST_PER_ROUND {
        Err(out_of_gas())
    } else {
        Ok(
            output_without_logs(
                ExitSucceed::Returned,
                (rounds_of(input) * Blake2F::GAS_COST_PER_ROUND) as u64,
                greeting(),
            ),
        )
    }
}

impl TestPC1 {
    /// Prices the rounds that the first four bytes of `input` ask for, and
    /// returns the greeting where the budget covers the price. The output
    /// holds the greeting's bytes as they are.
    pub fn execute(input: &[u8], target_gas: Option<u64>, context: &Context, is_static: bool) -> (r:
        PrecompileResult)
        requires
            input@.len() >= 4,
        ensures
            result_view(r) == prepaid_result(input@, target_gas),
    {
        let rounds: u32 = (input[0] as u32) * 0x100_0000 + (input[1] as u32) * 0x1_0000 + (
        input[2] as u32) * 0x100 + (input[3] as u32);
        let gas_cost: u64 = (rounds as u64) * Blake2F::GAS_COST_PER_ROUND;
        if let Some(gas_left) = target_gas {
            if gas_left < gas_cost {
                return Err(PrecompileFailure::Error { exit_status: ExitError::OutOfGas });
            }
        }
        let message: &str = "Hello, World from MyChain!";
        let out = PrecompileOutput {
            exit_status: ExitSucceed::Returned,
            cost: gas_cost,
            output: message.as_bytes_vec(),
            logs: Vec::new(),
        };
        assert(out@.logs =~= Seq::<LogView>::empty());
        Ok(out)
    }
}

} // verus!
