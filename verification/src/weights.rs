//! Weight functions of the swap pallet's extrinsics.

use crate::db_weight::{db_reads, db_writes, rocks_db, rocks_db_weight, sat_add, DbWeight, Weight};
use crate::laws::{capped, lemma_weight_is_capped_total, lemma_write_only_is_zero_reads};
use std::marker::PhantomData;
use vstd::prelude::*;

verus! {

/// `base`, plus `reads` database reads and `writes` database writes priced by
/// `db`, each step saturating at `u64::MAX`, in the order the weights add them.
pub open spec fn spec_weight(base: Weight, db: DbWeight, reads: Weight, writes: Weight) -> Weight {
    sat_add(sat_add(base, db.spec_reads(reads)), db.spec_writes(writes))
}

/// `base` plus `writes` database writes priced by `db`, saturating.
pub open spec fn spec_write_only_weight(base: Weight, db: DbWeight, writes: Weight) -> Weight {
    sat_add(base, db.spec_writes(writes))
}

/// Weight of `transfer_native`: 6 reads, 4 writes.
pub open spec fn spec_transfer_native(db: DbWeight) -> Weight {
    spec_weight(112_387_000, db, 6, 4)
}

/// Weight of `transfer`: 2 reads, 2 writes.
pub open spec fn spec_transfer(db: DbWeight) -> Weight {
    spec_weight(68_909_000, db, 2, 2)
}

/// Weight of `set_swap_fee`: 1 write.
pub open spec fn spec_set_swap_fee(db: DbWeight) -> Weight {
    spec_write_only_weight(19_255_000, db, 1)
}

/// Weight of `set_fee_destination`: 1 write.
pub open spec fn spec_set_fee_destination(db: DbWeight) -> Weight {
    spec_write_only_weight(19_658_000, db, 1)
}

/// Weight of `transfer_native` under the cost model `db`.
/// Storage: ChainBridge ChainNonces (r:1 w:1), Swap FeeDestination (r:1 w:0),
/// System Account (r:3 w:3), Swap SwapFee (r:1 w:0).
pub fn transfer_native_weight(db: DbWeight) -> (w: Weight)
    ensures
        w == spec_transfer_native(db),
        w == capped(112_387_000 + db.read * 6 + db.write * 4),
{
    proof {
        lemma_weight_is_capped_total(112_387_000, db, 6, 4);
    }
    112_387_000u64.saturating_add(db_reads(db, 6)).saturating_add(db_writes(db, 4))
}

/// Weight of `transfer` under the cost model `db`.
/// Storage: System Account (r:2 w:2).
pub fn transfer_weight(db: DbWeight) -> (w: Weight)
    ensures
        w == spec_transfer(db),
        w == capped(68_909_000 + db.read * 2 + db.write * 2),
{
    proof {
        lemma_weight_is_capped_total(68_909_000, db, 2, 2);
    }
    68_909_000u64.saturating_add(db_reads(db, 2)).saturating_add(db_writes(db, 2))
}

/// Weight of `set_swap_fee` under the cost model `db`.
/// Storage: Swap SwapFee (r:0 w:1).
pub fn set_swap_fee_weight(db: DbWeight) -> (w: Weight)
    ensures
        w == spec_set_swap_fee(db),
        w == capped(19_255_000 + db.write * 1),
{
    proof {
        lemma_write_only_is_zero_reads(19_255_000, db, 1);
        lemma_weight_is_capped_total(19_255_000, db, 0, 1);
    }
    19_255_000u64.saturating_add(db_writes(db, 1))
}

/// Weight of `set_fee_destination` under the cost model `db`.
/// Storage: Swap FeeDestination (r:0 w:1).
pub fn set_fee_destination_weight(db: DbWeight) -> (w: Weight)
    ensures
        w == spec_set_fee_destination(db),
        w == capped(19_658_000 + db.write * 1),
{
    proof {
        lemma_write_only_is_zero_reads(19_658_000, db, 1);
        lemma_weight_is_capped_total(19_658_000, db, 0, 1);
    }
    19_658_000u64.saturating_add(db_writes(db, 1))
}

/// Weight functions needed for swap.
pub trait WeightInfo {
    fn transfer_native() -> Weight;

    fn transfer() -> Weight;

    fn set_swap_fee() -> Weight;

    fn set_fee_destination() -> Weight;
}

/// Where a runtime takes the weight of its database operations from.
pub trait DbWeightSource {
    /// The cost model of the runtime's database.
    fn db_weight() -> DbWeight;
}

/// The RocksDB cost model, Substrate's default.
pub struct RocksDb;

impl DbWeightSource for RocksDb {
    fn db_weight() -> (db: DbWeight)
        ensures
            db == rocks_db(),
    {
        rocks_db_weight()
    }
}

/// Weights for swap using the Substrate node and recommended hardware.
pub struct SubstrateWeight<T>(PhantomData<T>);

impl<T: DbWeightSource> WeightInfo for SubstrateWeight<T> {
    // Storage: ChainBridge ChainNonces (r:1 w:1)
    // Storage: Swap FeeDestination (r:1 w:0)
    // Storage: System Account (r:3 w:3)
    // Storage: Swap SwapFee (r:1 w:0)
    fn transfer_native() -> (w: Weight)
        ensures
            exists|db: DbWeight|
                call_ensures(T::db_weight, (), db) && w == #[trigger] spec_transfer_native(db)
                    && w == capped(112_387_000 + db.read * 6 + db.write * 4),
    {
        let db = T::db_weight();
        let w = transfer_native_weight(db);
        assert(w == spec_transfer_native(db));
        w
    }

    // Storage: System Account (r:2 w:2)
    fn transfer() -> (w: Weight)
        ensures
            exists|db: DbWeight|
                call_ensures(T::db_weight, (), db) && w == #[trigger] spec_transfer(db)
                    && w == capped(68_909_000 + db.read * 2 + db.write * 2),
    {
        let db = T::db_weight();
        let w = transfer_weight(db);
        assert(w == spec_transfer(db));
        w
    }

    // Storage: Swap SwapFee (r:0 w:1)
    fn set_swap_fee() -> (w: Weight)
        ensures
            exists|db: DbWeight|
                call_ensures(T::db_weight, (), db) && w == #[trigger] spec_set_swap_fee(db)
                    && w == capped(19_255_000 + db.write * 1),
    {
        let db = T::db_weight();
        let w = set_swap_fee_weight(db);
        assert(w == spec_set_swap_fee(db));
        w
    }

    // Storage: Swap FeeDestination (r:0 w:1)
    fn set_fee_destination() -> (w: Weight)
        ensures
            exists|db: DbWeight|
                call_ensures(T::db_weight, (), db) && w == #[trigger] spec_set_fee_destination(db)
                    && w == capped(19_658_000 + db.write * 1),
    {
        let db = T::db_weight();
        let w = set_fee_destination_weight(db);
        assert(w == spec_set_fee_destination(db));
        w
    }
}

// For backwards compatibility and tests: the RocksDB cost model.
impl WeightInfo for () {
    fn transfer_native() -> (w: Weight)
        ensures
            w == spec_transfer_native(rocks_db()),
            w == 662_387_000,
    {
        transfer_native_weight(rocks_db_weight())
    }

    fn transfer() -> (w: Weight)
        ensures
            w == spec_transfer(rocks_db()),
            w == 318_909_000,
    {
        transfer_weight(rocks_db_weight())
    }

    fn set_swap_fee() -> (w: Weight)
        ensures
            w == spec_set_swap_fee(rocks_db()),
            w == 119_255_000,
    {
        set_swap_fee_weight(rocks_db_weight())
    }

    fn set_fee_destination() -> (w: Weight)
        ensures
            w == spec_set_fee_destination(rocks_db()),
            w == 119_658_000,
    {
        set_fee_destination_weight(rocks_db_weight())
    }
}

} // verus!
