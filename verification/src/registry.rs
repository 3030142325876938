//! The addresses at which the chain's precompiles live.

use crate::primitives::Address;
use vstd::prelude::*;

verus! {

/// The precompiles of the chain.
#[derive(Clone, Copy, Debug, PartialEq, Eq, Structural)]
pub enum PrecompileKind {
    /// Recovery of the signer of a message, at address 1.
    ECRecover,
    /// SHA-256, at address 2.
    Sha256,
    /// RIPEMD-160, at address 3.
    Ripemd160,
    /// The identity function, at address 4.
    Identity,
    /// Modular exponentiation, at address 5.
    Modexp,
    /// The chain's own greeting precompile, at address 51.
    TestPC1,
    /// SHA3-256 as standardised, at address 1024.
    Sha3FIPS256,
    /// Recovery of the public key of a signer, at address 1025.
    ECRecoverPublicKey,
}

/// The 20 bytes of the address whose last eight bytes spell `a`, most
/// significant byte first, and whose other bytes are zero.
pub open spec fn low_u64_be(a: u64) -> Seq<u8> {
    seq![
        0u8,
        0u8,
        0u8,
        0u8,
        0u8,
        0u8,
        0u8,
        0u8,
        0u8,
        0u8,
        0u8,
        0u8,
        (a / 0x100_0000_0000_0000) as u8,
        (a / 0x1_0000_0000_0000 % 0x100) as u8,
        (a / 0x100_0000_0000 % 0x100) as u8,
        (a / 0x1_0000_0000 % 0x100) as u8,
        (a / 0x100_0000 % 0x100) as u8,
        (a / 0x1_0000 % 0x100) as u8,
        (a / 0x100 % 0x100) as u8,
        (a % 0x100) as u8,
    ]
}

/// The precompile that lives at `address`, if any.
pub open spec fn precompile_at_address(address: Seq<u8>) -> Option<PrecompileKind> {
    if address == low_u64_be(1) {
        Some(PrecompileKind::ECRecover)
    } else if address == low_u64_be(2) {
        Some(PrecompileKind::Sha256)
    } else if address == low_u64_be(3) {
        Some(PrecompileKind::Ripemd160)
    } else if address == low_u64_be(4) {
        Some(PrecompileKind::Identity)
    } else if address == low_u64_be(5) {
        Some(PrecompileKind::Modexp)
    } else if address == low_u64_be(51) {
        Some(PrecompileKind::TestPC1)
    } else if address == low_u64_be(1024) {
        Some(PrecompileKind::Sha3FIPS256)
    } else if address == low_u64_be(1025) {
        Some(PrecompileKind::ECRecoverPublicKey)
    } else {
        None
    }
}

/// The numbers of the addresses in use, in ascending order.
pub open spec fn used_numbers() -> Seq<u64> {
    seq![1u64, 2u64, 3u64, 4u64, 5u64, 51u64, 1024u64, 1025u64]
}

/// The address with the number `a`.
///
/// Calls `H160::from_low_u64_be` of the crate `primitive-types`. Trusted:
/// the address holds `a` in its last eight bytes, most significant byte
/// first, and zero in the twelve bytes before them.
#[verifier::external_body]
fn hash(a: u64) -> (r: Address)
    ensures
        r@ == low_u64_be(a),
{
    Address { bytes: primitive_types::H160::from_low_u64_be(a).0 }
}

/// The set of the chain's precompiles.
#[derive(Clone, Copy, Debug)]
pub struct MyChainPrecompiles;

impl MyChainPrecompiles {
    /// The set of precompiles.
    pub fn new() -> (r: MyChainPrecompiles)
        ensures
            r == MyChainPrecompiles,
    {
        MyChainPrecompiles
    }

    /// The addresses at which a precompile lives, in ascending order.
    pub fn used_addresses() -> (r: Vec<Address>)
        ensures
            r@.len() == used_numbers().len(),
            forall|i: int| 0 <= i < r@.len() ==> (#[trigger] r@[i])@ == low_u64_be(used_numbers()[i]),
    {
        let mut addresses: Vec<Address> = Vec::new();
        addresses.push(hash(1));
        addresses.push(hash(2));
        addresses.push(hash(3));
        addresses.push(hash(4));
        addresses.push(hash(5));
        addresses.push(hash(51));
        addresses.push(hash(1024));
        addresses.push(hash(1025));
        addresses
    }

    /// The precompile that lives at `address`, if any.
    pub fn precompile_at(&self, address: &Address) -> (r: Option<PrecompileKind>)
        ensures
            r == precompile_at_address(address@),
    {
        if address.same_as(&hash(1)) {
            Some(PrecompileKind::ECRecover)
        } else if address.same_as(&hash(2)) {
            Some(PrecompileKind::Sha256)
        } else if address.same_as(&hash(3)) {
            Some(PrecompileKind::Ripemd160)
        } else if address.same_as(&hash(4)) {
            Some(PrecompileKind::Identity)
        } else if address.same_as(&hash(5)) {
            Some(PrecompileKind::Modexp)
        } else if address.same_as(&hash(51)) {
            Some(PrecompileKind::TestPC1)
        } else if address.same_as(&hash(1024)) {
            Some(PrecompileKind::Sha3FIPS256)
        } else if address.same_as(&hash(1025)) {
            Some(PrecompileKind::ECRecoverPublicKey)
        } else {
            None
        }
    }

    /// Whether a precompile lives at `address`.
    pub fn is_precompile(&self, address: &Address) -> (r: bool)
        ensures
            r == precompile_at_address(address@) is Some,
            r == exists|i: int| 0 <= i < used_numbers().len() && address@ == low_u64_be(
                #[trigger] used_numbers()[i],
            ),
    {
        let addresses = MyChainPrecompiles::used_addresses();
        let mut i: usize = 0;
        while i < addresses.len()
            invariant
                i <= addresses@.len(),
                addresses@.len() == used_numbers().len(),
                forall|j: int|
                    0 <= j < addresses@.len() ==> (#[trigger] addresses@[j])@ == low_u64_be(
                        used_numbers()[j],
                    ),
                forall|j: int| 0 <= j < i ==> address@ != low_u64_be(#[trigger] used_numbers()[j]),
            decreases addresses@.len() - i,
        {
            if addresses[i].same_as(address) {
                proof {
                    lemma_used_is_known(address@, i as int);
                }
                return true;
            }
            i += 1;
        }
        proof {
            lemma_unused_is_unknown(address@);
        }
        false
    }
}

/// An address in use is the address of a precompile.
pub proof fn lemma_used_is_known(address: Seq<u8>, i: int)
    requires
        0 <= i < used_numbers().len(),
        address == low_u64_be(used_numbers()[i]),
    ensures
        precompile_at_address(address) is Some,
{
}

/// An address that is not in use is the address of no precompile.
pub proof fn lemma_unused_is_unknown(address: Seq<u8>)
    requires
        forall|j: int|
            0 <= j < used_numbers().len() ==> address != low_u64_be(#[trigger] used_numbers()[j]),
    ensures
        precompile_at_address(address) is None,
{
    assert(used_numbers()[0] == 1);
    assert(used_numbers()[1] == 2);
    assert(used_numbers()[2] == 3);
    assert(used_numbers()[3] == 4);
    assert(used_numbers()[4] == 5);
    assert(used_numbers()[5] == 51);
    assert(used_numbers()[6] == 1024);
    assert(used_numbers()[7] == 1025);
}

} // verus!
