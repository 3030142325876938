//! The circumstances of a call, as the virtual machine supplies them.

use crate::primitives::{Address, H256, U256};
use vstd::prelude::*;

verus! {

/// How a contract comes to be created.
#[derive(Clone, Copy, Debug, PartialEq, Eq)]
pub enum CreateScheme {
    /// Creation at the address derived from the caller and its nonce.
    Legacy { caller: Address },
    /// Creation at the address derived from the caller, a code hash and a salt.
    Create2 { caller: Address, code_hash: H256, salt: H256 },
    /// Creation at a fixed address.
    Fixed(Address),
}

/// How one contract calls another.
#[derive(Clone, Copy, Debug, PartialEq, Eq, Structural)]
pub enum CallScheme {
    /// An ordinary call.
    Call,
    /// A call that runs the callee's code on the caller's storage.
    CallCode,
    /// A call that also keeps the caller and the value of the calling frame.
    DelegateCall,
    /// A call that may not change state.
    StaticCall,
}

/// The context of one invocation. It does not change while the invocation runs.
#[derive(Clone, Copy, Debug, PartialEq, Eq)]
pub struct Context {
    /// The address whose code runs.
    pub address: Address,
    /// The caller.
    pub caller: Address,
    /// The value attached to the call.
    pub apparent_value: U256,
}

} // verus!
