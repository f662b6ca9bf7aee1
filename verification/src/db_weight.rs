//! The cost of database operations, and what a number of reads and writes
//! weighs under it.

use frame_support::traits::Get;
use frame_support::weights::constants::RocksDbWeight;
use frame_support::weights::RuntimeDbWeight;
use vstd::prelude::*;

verus! {

/// Numeric range of a transaction weight.
pub type Weight = u64;

/// `a + b`, held at `u64::MAX` where the sum does not fit.
pub open spec fn sat_add(a: u64, b: u64) -> u64 {
    if a + b > u64::MAX {
        u64::MAX
    } else {
        (a + b) as u64
    }
}

/// `a * b`, held at `u64::MAX` where the product does not fit.
pub open spec fn sat_mul(a: u64, b: u64) -> u64 {
    if a * b > u64::MAX {
        u64::MAX
    } else {
        (a * b) as u64
    }
}

/// The weight of one database read and of one database write.
#[derive(Clone, Copy, Debug, PartialEq, Eq, Structural)]
pub struct DbWeight {
    pub read: Weight,
    pub write: Weight,
}

impl DbWeight {
    /// The weight of `r` reads: `read * r`, saturating.
    pub open spec fn spec_reads(self, r: Weight) -> Weight {
        sat_mul(self.read, r)
    }

    /// The weight of `w` writes: `write * w`, saturating.
    pub open spec fn spec_writes(self, w: Weight) -> Weight {
        sat_mul(self.write, w)
    }
}

/// The cost model that Substrate uses by default, RocksDB's: 25 µs a read,
/// 100 µs a write, in picoseconds of weight.
pub open spec fn rocks_db() -> DbWeight {
    DbWeight { read: 25_000_000, write: 100_000_000 }
}

/// Calls `frame_support::weights::RuntimeDbWeight::reads` on the cost model
/// `db`. Its source multiplies `read` by `r` with `u64::saturating_mul`; the
/// contract says that much and no more.
#[verifier::external_body]
pub(crate) fn db_reads(db: DbWeight, r: Weight) -> (res: Weight)
    ensures
        res == sat_mul(db.read, r),
{
    RuntimeDbWeight { read: db.read, write: db.write }.reads(r)
}

/// Calls `frame_support::weights::RuntimeDbWeight::writes` on the cost model
/// `db`. Its source multiplies `write` by `w` with `u64::saturating_mul`; the
/// contract says that much and no more.
#[verifier::external_body]
pub(crate) fn db_writes(db: DbWeight, w: Weight) -> (res: Weight)
    ensures
        res == sat_mul(db.write, w),
{
    RuntimeDbWeight { read: db.read, write: db.write }.writes(w)
}

/// Reads `frame_support::weights::constants::RocksDbWeight` through its
/// `Get<RuntimeDbWeight>` impl. The source defines it as a constant with
/// `read: 25 * WEIGHT_PER_MICROS` and `write: 100 * WEIGHT_PER_MICROS`, where
/// `WEIGHT_PER_MICROS` is 1_000_000; the contract states those two numbers.
#[verifier::external_body]
pub(crate) fn rocks_db_weight() -> (res: DbWeight)
    ensures
        res == rocks_db(),
{
    let w: RuntimeDbWeight = RocksDbWeight::get();
    DbWeight { read: w.read, write: w.write }
}

} // verus!
