//! A vectorized query execution core: a typed, nullable columnar value
//! model; expression trees that evaluate over blocks of rows and carry
//! two-phase aggregate state; processor-graph construction and merge
//! decisions; and the per-query partition queue.
use vstd::prelude::*;

pub mod aggregation_laws;
pub mod context;
pub mod data_array;
pub mod data_array_ops;
pub mod data_block;
pub mod data_type;
pub mod data_value;
pub mod error;
pub mod factory;
pub mod function;
pub mod laws;
pub mod operator;
pub mod pipeline;
pub mod strings;
pub mod tables;
pub mod transforms;

verus! {

} // verus!
