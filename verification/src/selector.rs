//! The functions that a precompile offers, and the decoding of a call's selector.

use crate::gasometer::{FunctionModifier, Gasometer};
use crate::outcome::{reverted, EvmResult, PrecompileFailureView};
use vstd::prelude::*;
use vstd::string::StringSliceAdditionalSpecFns;

verus! {

/// The first four bytes of the Keccak-256 hash of `deposit(address,uint256)`,
/// read as a big-endian number.
pub const SELECTOR_DEPOSIT: u32 = 0x47e7ef24;

/// The first four bytes of the Keccak-256 hash of `withdraw(uint256,address)`,
/// read as a big-endian number.
pub const SELECTOR_WITHDRAW: u32 = 0x00f714ce;

/// The first four bytes of the Keccak-256 hash of
/// `updatewhitelist(address,bool)`, read as a big-endian number.
pub const SELECTOR_UPDATE_WHITELIST: u32 = 0x9763bae8;

/// The functions that can be called, a closed set.
#[derive(Clone, Copy, Debug, PartialEq, Eq, Structural)]
pub enum Action {
    Deposit,
    Withdraw,
    UpdateWhitelist,
}

/// The number that the first four bytes of `input` spell, most significant byte first.
pub open spec fn selector_of(input: Seq<u8>) -> u32
    recommends
        input.len() >= 4,
{
    (input[0] as u32 * 0x100_0000 + input[1] as u32 * 0x1_0000 + input[2] as u32 * 0x100
        + input[3] as u32) as u32
}

/// The message of a revert for an input too short to hold a selector.
pub open spec fn selector_out_of_bounds_message() -> Seq<u8> {
    "tried to parse selector out of bounds".spec_bytes()
}

/// The message of a revert for a selector that names no function.
pub open spec fn unknown_selector_message() -> Seq<u8> {
    "unknown selector".spec_bytes()
}

impl Action {
    /// The selector of the function.
    pub open spec fn spec_selector(&self) -> u32 {
        match *self {
            Action::Deposit => SELECTOR_DEPOSIT,
            Action::Withdraw => SELECTOR_WITHDRAW,
            Action::UpdateWhitelist => SELECTOR_UPDATE_WHITELIST,
        }
    }

    /// The function that a selector names, if any.
    pub open spec fn spec_from_selector(selector: u32) -> Option<Action> {
        if selector == SELECTOR_DEPOSIT {
            Some(Action::Deposit)
        } else if selector == SELECTOR_WITHDRAW {
            Some(Action::Withdraw)
        } else if selector == SELECTOR_UPDATE_WHITELIST {
            Some(Action::UpdateWhitelist)
        } else {
            None
        }
    }

    /// The mutability that the function declares.
    pub open spec fn spec_modifier(&self) -> FunctionModifier {
        match *self {
            Action::Deposit => FunctionModifier::Payable,
            Action::Withdraw => FunctionModifier::NonPayable,
            Action::UpdateWhitelist => FunctionModifier::NonPayable,
        }
    }

    /// The canonical signature of the function, whose hash gives the selector.
    pub fn signature(&self) -> (r: &'static str)
        ensures
            r@ == match *self {
                Action::Deposit => "deposit(address,uint256)"@,
                Action::Withdraw => "withdraw(uint256,address)"@,
                Action::UpdateWhitelist => "updatewhitelist(address,bool)"@,
            },
    {
        match self {
            Action::Deposit => "deposit(address,uint256)",
            Action::Withdraw => "withdraw(uint256,address)",
            Action::UpdateWhitelist => "updatewhitelist(address,bool)",
        }
    }

    /// The selector of the function.
    #[verifier::when_used_as_spec(spec_selector)]
    pub fn selector(&self) -> (r: u32)
        ensures
            r == self.spec_selector(),
    {
        match self {
            Action::Deposit => SELECTOR_DEPOSIT,
            Action::Withdraw => SELECTOR_WITHDRAW,
            Action::UpdateWhitelist => SELECTOR_UPDATE_WHITELIST,
        }
    }

    /// The function that a selector names, if any.
    pub fn from_selector(selector: u32) -> (r: Option<Action>)
        ensures
            r == Action::spec_from_selector(selector),
            r matches Some(action) ==> action.spec_selector() == selector,
            r is None ==> forall|action: Action| action.spec_selector() != selector,
    {
        if selector == SELECTOR_DEPOSIT {
            Some(Action::Deposit)
        } else if selector == SELECTOR_WITHDRAW {
            Some(Action::Withdraw)
        } else if selector == SELECTOR_UPDATE_WHITELIST {
            Some(Action::UpdateWhitelist)
        } else {
            None
        }
    }

    /// The mutability that the function declares: a deposit accepts funds,
    /// the other functions refuse them.
    #[verifier::when_used_as_spec(spec_modifier)]
    pub fn modifier(&self) -> (r: FunctionModifier)
        ensures
            r == self.spec_modifier(),
    {
        match self {
            Action::Deposit => FunctionModifier::Payable,
            Action::Withdraw => FunctionModifier::NonPayable,
            Action::UpdateWhitelist => FunctionModifier::NonPayable,
        }
    }
}

/// The mathematical value of an [`EvmDataReader`]: the bytes it reads and how
/// many of them it has passed.
pub ghost struct ReaderView {
    pub input: Seq<u8>,
    pub cursor: nat,
}

/// A cursor over the bytes of a call.
#[derive(Clone, Copy, Debug)]
pub struct EvmDataReader<'a> {
    input: &'a [u8],
    cursor: usize,
}

impl<'a> View for EvmDataReader<'a> {
    type V = ReaderView;

    closed spec fn view(&self) -> ReaderView {
        ReaderView { input: self.input@, cursor: self.cursor as nat }
    }
}

/// What decoding the selector of `input` gives: the function that the first
/// four bytes name, with a reader past them; a revert that bills `used`
/// where the input is too short or the bytes name no function.
pub open spec fn selected(input: Seq<u8>, used: u64) -> Result<
    (ReaderView, Action),
    PrecompileFailureView,
> {
    if input.len() < 4 {
        Err(reverted(selector_out_of_bounds_message(), used))
    } else {
        match Action::spec_from_selector(selector_of(input)) {
            Some(action) => Ok((ReaderView { input, cursor: 4 }, action)),
            None => Err(reverted(unknown_selector_message(), used)),
        }
    }
}

/// What a call decodes to: the function that its selector names, or, where
/// it names none, a deposit that reads the whole input.
pub open spec fn decoded(input: Seq<u8>) -> (ReaderView, Action) {
    match selected(input, 0) {
        Ok(found) => found,
        Err(_) => (ReaderView { input, cursor: 0 }, Action::Deposit),
    }
}

impl<'a> EvmDataReader<'a> {
    /// A reader at the start of `input`.
    pub fn new(input: &'a [u8]) -> (r: EvmDataReader<'a>)
        ensures
            r@ == (ReaderView { input: input@, cursor: 0 }),
    {
        EvmDataReader { input, cursor: 0 }
    }

    /// Reads the selector at the start of `input`, and gives the function it
    /// names with a reader placed behind it. An input shorter than four
    /// bytes and a selector that names no function are refused with a
    /// revert that bills what `gasometer` has charged.
    pub fn new_with_selector(gasometer: &Gasometer, input: &'a [u8]) -> (r: EvmResult<
        (EvmDataReader<'a>, Action),
    >)
        ensures
            match r {
                Ok((reader, action)) => selected(input@, gasometer@.used as u64) == Ok::<
                    (ReaderView, Action),
                    PrecompileFailureView,
                >((reader@, action)),
                Err(e) => selected(input@, gasometer@.used as u64) == Err::<
                    (ReaderView, Action),
                    PrecompileFailureView,
                >(e@),
            },
    {
        if input.len() < 4 {
            return Err(gasometer.revert("tried to parse selector out of bounds".as_bytes()));
        }
        let selector: u32 = (input[0] as u32) * 0x100_0000 + (input[1] as u32) * 0x1_0000 + (
        input[2] as u32) * 0x100 + (input[3] as u32);
        match Action::from_selector(selector) {
            Some(action) => Ok((EvmDataReader { input, cursor: 4 }, action)),
            None => Err(gasometer.revert("unknown selector".as_bytes())),
        }
    }

    /// Decodes a call. Input that holds no known selector is not refused: it
    /// is taken as a deposit whose arguments start with the first byte, so
    /// that a plain transfer of value with little or no data goes through.
    pub fn decode(gasometer: &Gasometer, input: &'a [u8]) -> (r: (EvmDataReader<'a>, Action))
        ensures
            (r.0@, r.1) == decoded(input@),
    {
        match EvmDataReader::new_with_selector(gasometer, input) {
            Ok(found) => found,
            Err(_) => (EvmDataReader::new(input), Action::Deposit),
        }
    }

    /// How many bytes the reader has passed.
    pub fn position(&self) -> (r: usize)
        ensures
            r == self@.cursor,
    {
        self.cursor
    }

    /// The bytes that the reader was made over.
    pub fn input(&self) -> (r: &'a [u8])
        ensures
            r@ == self@.input,
    {
        self.input
    }
}

/// The selector of a function decodes to that function, with the reader
/// placed behind the selector.
pub proof fn lemma_selector_round_trip(action: Action, input: Seq<u8>)
    requires
        input.len() >= 4,
        selector_of(input) == action.spec_selector(),
    ensures
        Action::spec_from_selector(action.spec_selector()) == Some(action),
        decoded(input) == (ReaderView { input, cursor: 4 }, action),
{
}

/// Input without a known selector decodes to a deposit that reads the whole input.
pub proof fn lemma_fallback(input: Seq<u8>)
    requires
        input.len() < 4 || Action::spec_from_selector(selector_of(input)) is None,
    ensures
        decoded(input) == (ReaderView { input, cursor: 0 }, Action::Deposit),
{
}

} // verus!
