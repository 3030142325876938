//! A precompile that greets its caller, whatever the input.

use crate::context::Context;
use crate::gasometer::Gasometer;
use crate::outcome::{
    result_view, ExitSucceed, LogView, PrecompileFailureView, PrecompileOutput,
    PrecompileOutputView, PrecompileResult,
};
use crate::precompile::{output_without_logs, Precompile};
use vstd::prelude::*;
use vstd::string::{StrSliceExecFns, StringSliceAdditionalSpecFns};

verus! {

/// The greeting precompile.
pub struct TestPC1;

/// The bytes of the greeting.
pub open spec fn greeting() -> Seq<u8> {
    "Hello, World from MyChain!".spec_bytes()
}

impl Precompile for TestPC1 {
    /// Returns the greeting. Nothing is charged.
    fn execute(input: &[u8], target_gas: Option<u64>, context: &Context, is_static: bool) -> (r:
        PrecompileResult)
        ensures
            result_view(r) == Ok::<PrecompileOutputView, PrecompileFailureView>(
                output_without_logs(ExitSucceed::Returned, 0, greeting()),
            ),
    {
        let gasometer = Gasometer::new(target_gas);
        let message: &str = "Hello, World from MyChain!";
        let out = PrecompileOutput {
            exit_status: ExitSucceed::Returned,
            cost: gasometer.used_gas(),
            output: message.as_bytes_vec(),
            logs: Vec::new(),
        };
        assert(out@.logs =~= Seq::<LogView>::empty());
        Ok(out)
    }
}

} // verus!
