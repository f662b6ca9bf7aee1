//! Weights of the swap pallet's extrinsics, with the database cost model
//! they are built from.

pub mod db_weight;
pub mod weights;
pub mod laws;
