use mychain_precompiles::faucet::SELECTOR_LOG_DEPOSIT;
use mychain_precompiles::gasometer::{FunctionModifier, Gasometer};
use mychain_precompiles::outcome::{ExitRevert, PrecompileFailure};
use mychain_precompiles::selector::{
    Action, EvmDataReader, SELECTOR_DEPOSIT, SELECTOR_UPDATE_WHITELIST, SELECTOR_WITHDRAW,
};
use sha3::{Digest, Keccak256};

const ACTIONS: [Action; 3] = [Action::Deposit, Action::Withdraw, Action::UpdateWhitelist];

fn keccak(text: &str) -> [u8; 32] {
    Keccak256::digest(text.as_bytes()).into()
}

fn call(action: Action, arguments: &[u8]) -> Vec<u8> {
    let mut input = action.selector().to_be_bytes().to_vec();
    input.extend_from_slice(arguments);
    input
}

fn revert(message: &str, cost: u64) -> PrecompileFailure {
    PrecompileFailure::Revert {
        exit_status: ExitRevert::Reverted,
        output: message.as_bytes().to_vec(),
        cost,
    }
}

#[test]
fn selectors_are_the_hashes_of_the_signatures() {
    for action in ACTIONS {
        let hash = keccak(action.signature());
        assert_eq!(action.selector().to_be_bytes(), [hash[0], hash[1], hash[2], hash[3]]);
    }
    assert_eq!(Action::Deposit.signature(), "deposit(address,uint256)");
    assert_eq!(Action::Withdraw.signature(), "withdraw(uint256,address)");
    assert_eq!(Action::UpdateWhitelist.signature(), "updatewhitelist(address,bool)");
    assert_eq!(SELECTOR_DEPOSIT, 0x47e7ef24);
    assert_eq!(SELECTOR_WITHDRAW, 0x00f714ce);
    assert_eq!(SELECTOR_UPDATE_WHITELIST, 0x9763bae8);
}

#[test]
fn deposit_log_topic_is_the_hash_of_its_signature() {
    assert_eq!(SELECTOR_LOG_DEPOSIT, keccak("Deposit(address,uint256)"));
}

#[test]
fn selector_round_trip() {
    let gasometer = Gasometer::new(Some(100));
    for action in ACTIONS {
        assert_eq!(Action::from_selector(action.selector()), Some(action));
        let input = call(action, &[0xaa; 64]);
        let (reader, decoded) = EvmDataReader::decode(&gasometer, &input);
        assert_eq!(decoded, action);
        assert_eq!(reader.position(), 4);
        assert_eq!(reader.input(), &input[..]);

        let (reader, decoded) = EvmDataReader::new_with_selector(&gasometer, &input).unwrap();
        assert_eq!(decoded, action);
        assert_eq!(reader.position(), 4);
    }
}

#[test]
fn selector_alone_is_enough() {
    let gasometer = Gasometer::new(None);
    let input = call(Action::Withdraw, &[]);
    let (reader, decoded) = EvmDataReader::decode(&gasometer, &input);
    assert_eq!(decoded, Action::Withdraw);
    assert_eq!(reader.position(), 4);
}

#[test]
fn short_input_falls_back_to_deposit() {
    let gasometer = Gasometer::new(None);
    for input in [&[][..], &[0x00][..], &[0x00, 0xf7, 0x14][..]] {
        let (reader, decoded) = EvmDataReader::decode(&gasometer, input);
        assert_eq!(decoded, Action::Deposit);
        assert_eq!(reader.position(), 0);
        assert_eq!(reader.input(), input);
    }
}

#[test]
fn unknown_selector_falls_back_to_deposit() {
    let gasometer = Gasometer::new(None);
    let input = [0xde, 0xad, 0xbe, 0xef, 1, 2, 3];
    let (reader, decoded) = EvmDataReader::decode(&gasometer, &input);
    assert_eq!(decoded, Action::Deposit);
    assert_eq!(reader.position(), 0);
    assert_eq!(reader.input(), &input[..]);
    assert_eq!(Action::from_selector(0xdeadbeef), None);
}

#[test]
fn selector_is_read_most_significant_byte_first() {
    let gasometer = Gasometer::new(None);
    let mut input = SELECTOR_DEPOSIT.to_le_bytes().to_vec();
    input.extend_from_slice(&[0; 8]);
    let (reader, decoded) = EvmDataReader::decode(&gasometer, &input);
    assert_eq!(decoded, Action::Deposit);
    assert_eq!(reader.position(), 0);
    assert!(EvmDataReader::new_with_selector(&gasometer, &input).is_err());
}

#[test]
fn strict_decoding_refuses_what_decode_lets_through() {
    let mut gasometer = Gasometer::new(Some(50));
    assert_eq!(gasometer.record_cost(7), Ok(()));
    assert_eq!(
        EvmDataReader::new_with_selector(&gasometer, &[1, 2, 3]).err(),
        Some(revert("tried to parse selector out of bounds", 7))
    );
    assert_eq!(
        EvmDataReader::new_with_selector(&gasometer, &[1, 2, 3, 4]).err(),
        Some(revert("unknown selector", 7))
    );
}

#[test]
fn new_reader_starts_at_the_first_byte() {
    let input = [5u8, 6, 7];
    let reader = EvmDataReader::new(&input);
    assert_eq!(reader.position(), 0);
    assert_eq!(reader.input(), &input[..]);
}

#[test]
fn only_deposit_is_payable() {
    assert_eq!(Action::Deposit.modifier(), FunctionModifier::Payable);
    assert_eq!(Action::Withdraw.modifier(), FunctionModifier::NonPayable);
    assert_eq!(Action::UpdateWhitelist.modifier(), FunctionModifier::NonPayable);
}
