# swap weights

Weights of the swap pallet's extrinsics (`transfer_native`, `transfer`,
`set_swap_fee`, `set_fee_destination`), verified with Verus.

- `src/db_weight.rs`: the database cost model (`DbWeight`) and the calls into
  `frame_support` that price reads and writes and give the RocksDB costs.
- `src/weights.rs`: the weight of each extrinsic under a cost model, the
  `WeightInfo` trait, `SubstrateWeight<T>` and the `()` implementation.
- `src/laws.rs`: what holds of every weight (capped exact total, monotonicity,
  lower bounds, `()` against `SubstrateWeight` on RocksDB).
- `app/lib.rs`: binds `SubstrateWeight` to a FRAME runtime's
  `frame_system::Config::DbWeight`.
