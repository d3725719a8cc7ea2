//! Batch conversion of zipped CSV extracts into Parquet files.
//!
//! The library holds the decisions of the conversion: how paths are derived,
//! which directory items are archives, how the single entry of an archive is
//! read, how the fixed column table types the CSV text, the order of the
//! per-archive steps and the counting of a batch. Reading and writing files
//! is left to the caller, who hands the library plain values.
use vstd::prelude::*;

pub mod archive;
pub mod batch;
pub mod convert;
pub mod error;
pub mod paths;
pub mod pipeline;
pub mod schema;

verus! {

} // verus!
