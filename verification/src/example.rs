//! A precompile with three functions, as a pattern for others: it decodes
//! the call, checks it against the function's modifier, and runs the handler.

use crate::context::Context;
use crate::gasometer::{modifier_refusal, Gasometer};
use crate::outcome::{
    result_view, reverted, EvmResult, ExitSucceed, LogView, PrecompileFailureView,
    PrecompileOutput, PrecompileOutputView, PrecompileResult,
};
use crate::precompile::{output_without_logs, Precompile};
use crate::selector::{decoded, Action, EvmDataReader};
use vstd::prelude::*;

verus! {

/// The example precompile.
pub struct ExamplePrecompile;

/// What a call of the example precompile returns: a revert that bills
/// nothing where the modifier of the decoded function refuses the call, else
/// an empty output that cost nothing.
pub open spec fn example_result(input: Seq<u8>, value: nat, is_static: bool) -> Result<
    PrecompileOutputView,
    PrecompileFailureView,
> {
    match modifier_refusal(is_static, value, decoded(input).1.spec_modifier()) {
        Some(message) => Err(reverted(message, 0)),
        None => Ok(output_without_logs(ExitSucceed::Returned, 0, Seq::<u8>::empty())),
    }
}

impl Precompile for ExamplePrecompile {
    fn execute(input: &[u8], target_gas: Option<u64>, context: &Context, is_static: bool) -> (r:
        PrecompileResult)
        ensures
            result_view(r) == example_result(input@, context.apparent_value@, is_static),
    {
        let mut gasometer = Gasometer::new(target_gas);
        let (mut reader, action) = EvmDataReader::decode(&gasometer, input);
        gasometer.check_function_modifier(context, is_static, action.modifier())?;
        match action {
            Action::Deposit => Self::deposit(&mut reader, &mut gasometer, context),
            Action::Withdraw => Self::withdraw(&mut reader, &mut gasometer, context),
            Action::UpdateWhitelist => Self::updatewhitelist(&mut reader, &mut gasometer, context),
        }
    }
}

impl ExamplePrecompile {
    /// Handles a deposit: returns no data, for what the ledger has charged.
    fn deposit(
        reader: &mut EvmDataReader,
        gasometer: &mut Gasometer,
        context: &Context,
    ) -> (r: EvmResult<PrecompileOutput>)
        ensures
            r matches Ok(out) && out@ == output_without_logs(
                ExitSucceed::Returned,
                old(gasometer)@.used as u64,
                Seq::<u8>::empty(),
            ),
            final(gasometer)@ == old(gasometer)@,
            final(reader)@ == old(reader)@,
    {
        let out = PrecompileOutput {
            exit_status: ExitSucceed::Returned,
            cost: gasometer.used_gas(),
            output: Vec::new(),
            logs: Vec::new(),
        };
        assert(out@.logs =~= Seq::<LogView>::empty());
        Ok(out)
    }

    /// Handles a withdrawal: returns no data, for what the ledger has charged.
    fn withdraw(
        reader: &mut EvmDataReader,
        gasometer: &mut Gasometer,
        context: &Context,
    ) -> (r: EvmResult<PrecompileOutput>)
        ensures
            r matches Ok(out) && out@ == output_without_logs(
                ExitSucceed::Returned,
                old(gasometer)@.used as u64,
                Seq::<u8>::empty(),
            ),
            final(gasometer)@ == old(gasometer)@,
            final(reader)@ == old(reader)@,
    {
        let out = PrecompileOutput {
            exit_status: ExitSucceed::Returned,
            cost: gasometer.used_gas(),
            output: Vec::new(),
            logs: Vec::new(),
        };
        assert(out@.logs =~= Seq::<LogView>::empty());
        Ok(out)
    }

    /// Handles a change of the whitelist: returns no data, for what the ledger has charged.
    fn updatewhitelist(
        reader: &mut EvmDataReader,
        gasometer: &mut Gasometer,
        context: &Context,
    ) -> (r: EvmResult<PrecompileOutput>)
        ensures
            r matches Ok(out) && out@ == output_without_logs(
                ExitSucceed::Returned,
                old(gasometer)@.used as u64,
                Seq::<u8>::empty(),
            ),
            final(gasometer)@ == old(gasometer)@,
            final(reader)@ == old(reader)@,
    {
        let out = PrecompileOutput {
            exit_status: ExitSucceed::Returned,
            cost: gasometer.used_gas(),
            output: Vec::new(),
            logs: Vec::new(),
        };
        assert(out@.logs =~= Seq::<LogView>::empty());
        Ok(out)
    }
}

} // verus!
