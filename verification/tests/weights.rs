use swap::db_weight::DbWeight;
use swap::weights::{
    set_fee_destination_weight, set_swap_fee_weight, transfer_native_weight, transfer_weight,
    DbWeightSource, RocksDb, SubstrateWeight, WeightInfo,
};

const ROCKS: DbWeight = DbWeight { read: 25_000_000, write: 100_000_000 };

#[test]
fn rocks_db_source_gives_rocks_db_costs() {
    assert_eq!(RocksDb::db_weight(), ROCKS);
}

#[test]
fn unit_weights_under_rocks_db() {
    assert_eq!(<() as WeightInfo>::transfer_native(), 662_387_000);
    assert_eq!(<() as WeightInfo>::transfer(), 318_909_000);
    assert_eq!(<() as WeightInfo>::set_swap_fee(), 119_255_000);
    assert_eq!(<() as WeightInfo>::set_fee_destination(), 119_658_000);
}

#[test]
fn substrate_weight_on_rocks_db_equals_unit() {
    type W = SubstrateWeight<RocksDb>;
    assert_eq!(W::transfer_native(), <() as WeightInfo>::transfer_native());
    assert_eq!(W::transfer(), <() as WeightInfo>::transfer());
    assert_eq!(W::set_swap_fee(), <() as WeightInfo>::set_swap_fee());
    assert_eq!(W::set_fee_destination(), <() as WeightInfo>::set_fee_destination());
}

#[test]
fn weights_count_each_read_and_write() {
    let db = DbWeight { read: 3, write: 7 };
    assert_eq!(transfer_native_weight(db), 112_387_000 + 6 * 3 + 4 * 7);
    assert_eq!(transfer_weight(db), 68_909_000 + 2 * 3 + 2 * 7);
    assert_eq!(set_swap_fee_weight(db), 19_255_000 + 7);
    assert_eq!(set_fee_destination_weight(db), 19_658_000 + 7);
}

#[test]
fn free_database_leaves_the_base_weight() {
    let db = DbWeight { read: 0, write: 0 };
    assert_eq!(transfer_native_weight(db), 112_387_000);
    assert_eq!(transfer_weight(db), 68_909_000);
    assert_eq!(set_swap_fee_weight(db), 19_255_000);
    assert_eq!(set_fee_destination_weight(db), 19_658_000);
}

#[test]
fn costly_reads_saturate() {
    let db = DbWeight { read: u64::MAX / 2, write: 0 };
    assert_eq!(transfer_native_weight(db), u64::MAX);
    assert_eq!(transfer_weight(db), u64::MAX);
    // Writes only: the read cost plays no part.
    assert_eq!(set_swap_fee_weight(db), 19_255_000);
}

#[test]
fn costly_writes_saturate() {
    let db = DbWeight { read: 0, write: u64::MAX };
    assert_eq!(transfer_native_weight(db), u64::MAX);
    assert_eq!(transfer_weight(db), u64::MAX);
    assert_eq!(set_swap_fee_weight(db), u64::MAX);
    assert_eq!(set_fee_destination_weight(db), u64::MAX);
}

#[test]
fn sum_saturates_at_the_last_step() {
    // Neither product overflows; base plus both does.
    let db = DbWeight { read: u64::MAX / 4, write: u64::MAX / 4 };
    assert_eq!(transfer_weight(db), u64::MAX);
    // Exactly at the limit: nothing is cut.
    let w = u64::MAX - 19_255_000;
    assert_eq!(set_swap_fee_weight(DbWeight { read: 0, write: w }), u64::MAX);
    assert_eq!(
        set_swap_fee_weight(DbWeight { read: 0, write: w - 1 }),
        u64::MAX - 1
    );
}

#[test]
fn costlier_database_is_never_lighter() {
    let cheap = DbWeight { read: 8_000_000, write: 50_000_000 };
    assert!(transfer_native_weight(cheap) <= transfer_native_weight(ROCKS));
    assert!(transfer_weight(cheap) <= transfer_weight(ROCKS));
    assert!(set_swap_fee_weight(cheap) <= set_swap_fee_weight(ROCKS));
    assert!(set_fee_destination_weight(cheap) <= set_fee_destination_weight(ROCKS));
}

#[test]
fn weights_are_ordered_under_one_cost_model() {
    for db in [DbWeight { read: 0, write: 0 }, ROCKS, DbWeight { read: u64::MAX, write: u64::MAX }] {
        assert!(transfer_weight(db) <= transfer_native_weight(db));
        assert!(set_swap_fee_weight(db) <= set_fee_destination_weight(db));
    }
}
