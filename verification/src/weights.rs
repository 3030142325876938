//! The weights of the calls of the cross-chain transactor, from its benchmarks.

use crate::dispatch::Weight;
use vstd::prelude::*;

verus! {

/// What one read and one write of the host's database weigh.
#[derive(Clone, Copy, Debug, PartialEq, Eq)]
pub struct RuntimeDbWeight {
    pub read: Weight,
    pub write: Weight,
}

/// The sum of two weights, stopped at the largest weight.
pub open spec fn saturating_sum(a: int, b: int) -> int {
    if a + b > u64::MAX {
        u64::MAX as int
    } else {
        a + b
    }
}

/// The product of two weights, stopped at the largest weight.
pub open spec fn saturating_product(a: int, b: int) -> int {
    if a * b > u64::MAX {
        u64::MAX as int
    } else {
        a * b
    }
}

impl RuntimeDbWeight {
    /// The weight of `r` reads.
    pub fn reads(self, r: Weight) -> (w: Weight)
        ensures
            w == saturating_product(self.read as int, r as int),
    {
        match self.read.checked_mul(r) {
            Some(product) => product,
            None => u64::MAX,
        }
    }

    /// The weight of `w` writes.
    pub fn writes(self, w: Weight) -> (r: Weight)
        ensures
            r == saturating_product(self.write as int, w as int),
    {
        match self.write.checked_mul(w) {
            Some(product) => product,
            None => u64::MAX,
        }
    }
}

/// The weights that the cross-chain transactor needs.
pub trait WeightInfo {
    /// The weight of registering an account under an index.
    fn register(db: RuntimeDbWeight) -> Weight;

    /// The weight of removing an index.
    fn deregister(db: RuntimeDbWeight) -> Weight;

    /// The weight of setting how a destination is to be paid.
    fn set_transact_info(db: RuntimeDbWeight) -> Weight;

    /// The weight of removing how a destination is to be paid.
    fn remove_transact_info(db: RuntimeDbWeight) -> Weight;
}

/// The weights measured on the reference hardware.
pub struct SubstrateWeight;

impl WeightInfo for SubstrateWeight {
    /// The measured time, one read and one write.
    fn register(db: RuntimeDbWeight) -> (w: Weight)
        ensures
            w == saturating_sum(
                saturating_sum(19_401_000, db.read as int),
                db.write as int,
            ),
    {
        proof {
            assert(db.read * 1 == db.read && db.write * 1 == db.write) by (nonlinear_arith);
        }
        let base: Weight = 19_401_000;
        base.saturating_add(db.reads(1)).saturating_add(db.writes(1))
    }

    /// The measured time and one write.
    fn deregister(db: RuntimeDbWeight) -> (w: Weight)
        ensures
            w == saturating_sum(16_181_000, db.write as int),
    {
        proof {
            assert(db.write * 1 == db.write) by (nonlinear_arith);
        }
        let base: Weight = 16_181_000;
        base.saturating_add(db.writes(1))
    }

    /// The measured time and one write.
    fn set_transact_info(db: RuntimeDbWeight) -> (w: Weight)
        ensures
            w == saturating_sum(19_595_000, db.write as int),
    {
        proof {
            assert(db.write * 1 == db.write) by (nonlinear_arith);
        }
        let base: Weight = 19_595_000;
        base.saturating_add(db.writes(1))
    }

    /// The measured time and one write.
    fn remove_transact_info(db: RuntimeDbWeight) -> (w: Weight)
        ensures
            w == saturating_sum(18_691_000, db.write as int),
    {
        proof {
            assert(db.write * 1 == db.write) by (nonlinear_arith);
        }
        let base: Weight = 18_691_000;
        base.saturating_add(db.writes(1))
    }
}

} // verus!
