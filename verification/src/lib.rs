//! Typed, zero-copy array views over raw, shared byte buffers: the array layer
//! of a columnar in-memory data format. An array interprets the buffers of an
//! untyped data container as a sequence of values of a known logical type
//! (fixed-width numeric, bit-packed boolean, variable-length binary/text,
//! list, struct). Index operations deliberately skip bounds checks; safety
//! rests on the invariants that construction establishes, and those invariants
//! and the meaning of every accessor are stated and proved here.
#![verifier::loop_isolation(false)]

use vstd::prelude::*;

pub mod array;
pub mod array_data;
pub mod binary;
pub mod bits;
pub mod buffer;
pub mod datatypes;
pub mod error;
pub mod list;
pub mod native;
pub mod offsets;
pub mod primitive;
pub mod struct_array;
pub mod temporal;

verus! {

use std::sync::Arc;

/// Relies on std's Arc::clone: the returned handle points at the same value
/// and shares its allocation (an O(1) reference-count bump, no copy).
#[verifier::external_body]
pub(crate) fn arc_clone<T>(v: &Arc<T>) -> (r: Arc<T>)
    ensures
        r == *v,
{
    Arc::clone(v)
}

} // verus!
