//! The offsets scheme the variable-length layouts share: a buffer of
//! little-endian 32-bit signed offsets, `length + 1` of them, delimiting each
//! element's span in the child values. The list layout and the binary/text
//! layout read it identically.

use vstd::bytes::spec_u32_from_le_bytes;
use vstd::prelude::*;

use crate::buffer::Buffer;
use crate::native::read_u32_at;

verus! {

/// The `k`-th offset held by an offsets buffer: the signed 32-bit value
/// encoded little-endian at byte position `4 * k`.
pub open spec fn offset_value(bytes: Seq<u8>, k: int) -> i32 {
    spec_u32_from_le_bytes(bytes.subrange(4 * k, 4 * k + 4)) as i32
}

/// Whether an offsets buffer of these bytes holds a `k`-th offset at all.
pub open spec fn offset_readable(bytes: Seq<u8>, k: int) -> bool {
    0 <= k && 4 * k + 4 <= bytes.len()
}

/// Reads the `k`-th offset of an offsets buffer.
pub fn read_offset(buf: &Buffer, k: usize) -> (v: i32)
    requires
        offset_readable(buf@, k as int),
    ensures
        v == offset_value(buf@, k as int),
{
    let buf_len = buf.len();
    read_u32_at(buf, 4 * k) as i32
}

} // verus!
