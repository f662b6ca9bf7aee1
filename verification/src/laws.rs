//! What holds of every weight the pallet reports, whatever the cost model.

use crate::db_weight::{rocks_db, DbWeight, Weight};
use crate::weights::{
    spec_set_fee_destination, spec_set_swap_fee, spec_transfer, spec_transfer_native,
    spec_weight, spec_write_only_weight, DbWeightSource, RocksDb,
};
use vstd::prelude::*;

verus! {

/// `x` held at `u64::MAX`.
pub open spec fn capped(x: int) -> Weight {
    if x > u64::MAX {
        u64::MAX
    } else {
        x as u64
    }
}

/// The saturating steps lose nothing but the excess: a weight is its exact
/// total, `base + reads * read + writes * write`, held at `u64::MAX`.
pub proof fn lemma_weight_is_capped_total(base: Weight, db: DbWeight, reads: Weight, writes: Weight)
    ensures
        spec_weight(base, db, reads, writes) == capped(base + db.read * reads + db.write * writes),
{
    assert(db.read * reads >= 0) by (nonlinear_arith);
    assert(db.write * writes >= 0) by (nonlinear_arith);
}

/// An extrinsic that reads nothing weighs what one that does zero reads
/// weighs.
pub proof fn lemma_write_only_is_zero_reads(base: Weight, db: DbWeight, writes: Weight)
    ensures
        spec_write_only_weight(base, db, writes) == spec_weight(base, db, 0, writes),
{
}

/// `transfer_native` weighs its measured 112_387_000 plus six reads and four
/// writes at the cost model's prices, held at `u64::MAX`.
pub proof fn lemma_transfer_native_is_capped_total(db: DbWeight)
    ensures
        spec_transfer_native(db) == capped(112_387_000 + db.read * 6 + db.write * 4),
{
    lemma_weight_is_capped_total(112_387_000, db, 6, 4);
}

/// `transfer` weighs its measured 68_909_000 plus two reads and two writes at
/// the cost model's prices, held at `u64::MAX`.
pub proof fn lemma_transfer_is_capped_total(db: DbWeight)
    ensures
        spec_transfer(db) == capped(68_909_000 + db.read * 2 + db.write * 2),
{
    lemma_weight_is_capped_total(68_909_000, db, 2, 2);
}

/// `set_swap_fee` weighs its measured 19_255_000 plus one write, held at
/// `u64::MAX`; the price of a read plays no part.
pub proof fn lemma_set_swap_fee_is_capped_total(db: DbWeight)
    ensures
        spec_set_swap_fee(db) == capped(19_255_000 + db.write),
{
    lemma_write_only_is_zero_reads(19_255_000, db, 1);
    lemma_weight_is_capped_total(19_255_000, db, 0, 1);
}

/// `set_fee_destination` weighs its measured 19_658_000 plus one write, held
/// at `u64::MAX`; the price of a read plays no part.
pub proof fn lemma_set_fee_destination_is_capped_total(db: DbWeight)
    ensures
        spec_set_fee_destination(db) == capped(19_658_000 + db.write),
{
    lemma_write_only_is_zero_reads(19_658_000, db, 1);
    lemma_weight_is_capped_total(19_658_000, db, 0, 1);
}

/// Below saturation, one more unit of write cost adds exactly four to
/// `transfer_native` and two to `transfer`; one more unit of read cost adds six
/// and two.
pub proof fn lemma_weights_step_with_cost(db: DbWeight)
    requires
        db.read < u64::MAX,
        db.write < u64::MAX,
        112_387_000 + (db.read + 1) * 6 + (db.write + 1) * 4 <= u64::MAX,
    ensures
        spec_transfer_native(DbWeight { read: db.read, write: (db.write + 1) as u64 })
            == spec_transfer_native(db) + 4,
        spec_transfer_native(DbWeight { read: (db.read + 1) as u64, write: db.write })
            == spec_transfer_native(db) + 6,
        spec_transfer(DbWeight { read: db.read, write: (db.write + 1) as u64 })
            == spec_transfer(db) + 2,
        spec_transfer(DbWeight { read: (db.read + 1) as u64, write: db.write })
            == spec_transfer(db) + 2,
{
    let dw = DbWeight { read: db.read, write: (db.write + 1) as u64 };
    let dr = DbWeight { read: (db.read + 1) as u64, write: db.write };
    lemma_transfer_native_is_capped_total(db);
    lemma_transfer_native_is_capped_total(dw);
    lemma_transfer_native_is_capped_total(dr);
    lemma_transfer_is_capped_total(db);
    lemma_transfer_is_capped_total(dw);
    lemma_transfer_is_capped_total(dr);
}

/// A weight never falls as its base, the cost of a read or of a write, or
/// the number of reads or writes grows.
pub proof fn lemma_weight_monotone(
    base1: Weight,
    db1: DbWeight,
    reads1: Weight,
    writes1: Weight,
    base2: Weight,
    db2: DbWeight,
    reads2: Weight,
    writes2: Weight,
)
    requires
        base1 <= base2,
        db1.read <= db2.read,
        db1.write <= db2.write,
        reads1 <= reads2,
        writes1 <= writes2,
    ensures
        spec_weight(base1, db1, reads1, writes1) <= spec_weight(base2, db2, reads2, writes2),
{
    lemma_weight_is_capped_total(base1, db1, reads1, writes1);
    lemma_weight_is_capped_total(base2, db2, reads2, writes2);
    let (a1, b1, a2, b2) = (db1.read as int, reads1 as int, db2.read as int, reads2 as int);
    assert(a1 * b1 <= a2 * b2) by (nonlinear_arith)
        requires
            0 <= a1 <= a2,
            0 <= b1 <= b2,
    ;
    let (c1, d1, c2, d2) = (db1.write as int, writes1 as int, db2.write as int, writes2 as int);
    assert(c1 * d1 <= c2 * d2) by (nonlinear_arith)
        requires
            0 <= c1 <= c2,
            0 <= d1 <= d2,
    ;
}

/// No extrinsic weighs less than the compute time measured for it, whatever
/// the database costs.
pub proof fn lemma_weights_at_least_base(db: DbWeight)
    ensures
        spec_transfer_native(db) >= 112_387_000,
        spec_transfer(db) >= 68_909_000,
        spec_set_swap_fee(db) >= 19_255_000,
        spec_set_fee_destination(db) >= 19_658_000,
{
    let zero = DbWeight { read: 0, write: 0 };
    lemma_weight_monotone(112_387_000, zero, 0, 0, 112_387_000, db, 6, 4);
    lemma_weight_monotone(68_909_000, zero, 0, 0, 68_909_000, db, 2, 2);
    lemma_write_only_is_zero_reads(19_255_000, db, 1);
    lemma_weight_monotone(19_255_000, zero, 0, 0, 19_255_000, db, 0, 1);
    lemma_write_only_is_zero_reads(19_658_000, db, 1);
    lemma_weight_monotone(19_658_000, zero, 0, 0, 19_658_000, db, 0, 1);
}

/// A costlier database never makes an extrinsic lighter.
pub proof fn lemma_weights_monotone_in_db(db1: DbWeight, db2: DbWeight)
    requires
        db1.read <= db2.read,
        db1.write <= db2.write,
    ensures
        spec_transfer_native(db1) <= spec_transfer_native(db2),
        spec_transfer(db1) <= spec_transfer(db2),
        spec_set_swap_fee(db1) <= spec_set_swap_fee(db2),
        spec_set_fee_destination(db1) <= spec_set_fee_destination(db2),
{
    lemma_weight_monotone(112_387_000, db1, 6, 4, 112_387_000, db2, 6, 4);
    lemma_weight_monotone(68_909_000, db1, 2, 2, 68_909_000, db2, 2, 2);
    lemma_write_only_is_zero_reads(19_255_000, db1, 1);
    lemma_write_only_is_zero_reads(19_255_000, db2, 1);
    lemma_weight_monotone(19_255_000, db1, 0, 1, 19_255_000, db2, 0, 1);
    lemma_write_only_is_zero_reads(19_658_000, db1, 1);
    lemma_write_only_is_zero_reads(19_658_000, db2, 1);
    lemma_weight_monotone(19_658_000, db1, 0, 1, 19_658_000, db2, 0, 1);
}

/// Under one cost model, `transfer_native` (more storage accessed, larger
/// base) never weighs less than `transfer`, nor `set_fee_destination` less
/// than `set_swap_fee`.
pub proof fn lemma_weights_ordered(db: DbWeight)
    ensures
        spec_transfer(db) <= spec_transfer_native(db),
        spec_set_swap_fee(db) <= spec_set_fee_destination(db),
{
    lemma_weight_monotone(68_909_000, db, 2, 2, 112_387_000, db, 6, 4);
    lemma_write_only_is_zero_reads(19_255_000, db, 1);
    lemma_write_only_is_zero_reads(19_658_000, db, 1);
    lemma_weight_monotone(19_255_000, db, 0, 1, 19_658_000, db, 0, 1);
}

/// The weights of `()` are those of `SubstrateWeight` on a runtime whose
/// database is RocksDB: whatever cost model `RocksDb` hands out prices every
/// extrinsic as `()` does.
pub proof fn lemma_unit_is_rocks_db_substrate_weight(db: DbWeight)
    requires
        call_ensures(RocksDb::db_weight, (), db),
    ensures
        spec_transfer_native(db) == spec_transfer_native(rocks_db()),
        spec_transfer(db) == spec_transfer(rocks_db()),
        spec_set_swap_fee(db) == spec_set_swap_fee(rocks_db()),
        spec_set_fee_destination(db) == spec_set_fee_destination(rocks_db()),
{
}

} // verus!
