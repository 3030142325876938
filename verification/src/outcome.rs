//! What a precompile hands back: its output on success, an error or a revert otherwise.

use crate::primitives::{Address, H256};
use vstd::prelude::*;

verus! {

/// How a successful call ended.
#[derive(Clone, Copy, Debug, PartialEq, Eq, Structural)]
pub enum ExitSucceed {
    /// The call stopped without returning data.
    Stopped,
    /// The call returned data.
    Returned,
    /// The call ended by destroying the contract.
    Suicided,
}

/// How a reverted call ended.
#[derive(Clone, Copy, Debug, PartialEq, Eq, Structural)]
pub enum ExitRevert {
    /// The call declined the operation.
    Reverted,
}

/// Why a call failed for good.
#[derive(Clone, Copy, Debug, PartialEq, Eq)]
pub enum ExitError {
    /// The gas budget is exhausted, or a cost does not fit the counter.
    OutOfGas,
    /// Another fatal condition, with its description.
    Other(&'static str),
}

/// An event emitted by a handler.
#[derive(Clone, Debug, PartialEq, Eq)]
pub struct Log {
    pub address: Address,
    pub topics: Vec<H256>,
    pub data: Vec<u8>,
}

/// The mathematical value of a [`Log`].
pub ghost struct LogView {
    pub address: Seq<u8>,
    pub topics: Seq<Seq<u8>>,
    pub data: Seq<u8>,
}

impl View for Log {
    type V = LogView;

    open spec fn view(&self) -> LogView {
        LogView {
            address: self.address@,
            topics: Seq::new(self.topics@.len(), |i: int| self.topics@[i]@),
            data: self.data@,
        }
    }
}

/// The views of a sequence of logs, in order.
pub open spec fn log_views(logs: Seq<Log>) -> Seq<LogView> {
    Seq::new(logs.len(), |i: int| logs[i]@)
}

/// What a precompile returns on success.
#[derive(Clone, Debug, PartialEq, Eq)]
pub struct PrecompileOutput {
    pub exit_status: ExitSucceed,
    pub cost: u64,
    pub output: Vec<u8>,
    pub logs: Vec<Log>,
}

/// The mathematical value of a [`PrecompileOutput`].
pub ghost struct PrecompileOutputView {
    pub exit_status: ExitSucceed,
    pub cost: u64,
    pub output: Seq<u8>,
    pub logs: Seq<LogView>,
}

impl View for PrecompileOutput {
    type V = PrecompileOutputView;

    open spec fn view(&self) -> PrecompileOutputView {
        PrecompileOutputView {
            exit_status: self.exit_status,
            cost: self.cost,
            output: self.output@,
            logs: log_views(self.logs@),
        }
    }
}

/// What a precompile returns when the call does not succeed.
#[derive(Clone, Debug, PartialEq, Eq)]
#[allow(inconsistent_fields)]
pub enum PrecompileFailure {
    /// The call failed for good; the caller's frame forfeits its gas.
    Error { exit_status: ExitError },
    /// The call declined the operation: the caller gets `output` as data
    /// and is billed `cost`.
    Revert { exit_status: ExitRevert, output: Vec<u8>, cost: u64 },
}

/// The mathematical value of a [`PrecompileFailure`].
#[allow(inconsistent_fields)]
pub ghost enum PrecompileFailureView {
    Error { exit_status: ExitError },
    Revert { exit_status: ExitRevert, output: Seq<u8>, cost: u64 },
}

impl View for PrecompileFailure {
    type V = PrecompileFailureView;

    open spec fn view(&self) -> PrecompileFailureView {
        match *self {
            PrecompileFailure::Error { exit_status } => PrecompileFailureView::Error {
                exit_status,
            },
            PrecompileFailure::Revert { exit_status, output, cost } => {
                PrecompileFailureView::Revert { exit_status, output: output@, cost }
            },
        }
    }
}

/// The result of an operation that may fail the call.
pub type EvmResult<T = ()> = Result<T, PrecompileFailure>;

/// The result of one invocation of a precompile.
pub type PrecompileResult = Result<PrecompileOutput, PrecompileFailure>;

/// The failure that reports an exhausted budget.
pub open spec fn out_of_gas() -> PrecompileFailureView {
    PrecompileFailureView::Error { exit_status: ExitError::OutOfGas }
}

/// The revert that carries `output` and bills `cost`.
pub open spec fn reverted(output: Seq<u8>, cost: u64) -> PrecompileFailureView {
    PrecompileFailureView::Revert { exit_status: ExitRevert::Reverted, output, cost }
}

/// The value of a result whose success carries nothing.
pub open spec fn failure_of(r: EvmResult) -> Option<PrecompileFailureView> {
    match r {
        Ok(_) => None,
        Err(e) => Some(e@),
    }
}

/// The value of a whole invocation's result.
pub open spec fn result_view(r: PrecompileResult) -> Result<
    PrecompileOutputView,
    PrecompileFailureView,
> {
    match r {
        Ok(out) => Ok(out@),
        Err(e) => Err(e@),
    }
}

} // verus!
