//! The variable-length list layout: an offsets buffer paired with one child
//! array that holds the concatenation of all element values. Construction
//! validates the buffer and child counts, the offsets buffer's alignment, and
//! the offsets at the two endpoints: the first offset must be zero and the
//! last must equal the child's length. The offsets between are trusted, as
//! the layer's unchecked-access contract states.

use vstd::prelude::*;

use crate::arc_clone;
use crate::array::{make_array, models, list_shape, factory_ok, AnyArray, Array, ArrayRef};
use crate::array_data::{ArrayData, ArrayDataRef};
use crate::buffer::Buffer;
use crate::datatypes::{dt_eq, DataType};
use crate::error::ArrowError;
use crate::offsets::{offset_readable, offset_value, read_offset};

verus! {

/// Which error list construction reports for container `d`, in the order the
/// conditions are checked: buffer count, child count, then the child's own
/// (recursive) rejection, then alignment, the offsets buffer's size, and the
/// two endpoint offsets.
pub open spec fn list_rejection(d: ArrayData, e: ArrowError) -> bool {
    if d.buffers@.len() != 1 {
        e == ArrowError::BufferCountMismatch
    } else if d.child_data@.len() != 1 {
        e == ArrowError::ChildCountMismatch
    } else if !factory_ok(*d.child_data@[0]) {
        true
    } else if d.buffers@[0].start_pos() % 4 != 0 {
        e == ArrowError::UnalignedBuffer
    } else if 4 * (d.len + 1) > d.buffers@[0]@.len() {
        e == ArrowError::ShortOffsetsBuffer
    } else if offset_value(d.buffers@[0]@, 0) != 0 {
        e == ArrowError::OffsetsNotStartingAtZero
    } else if offset_value(d.buffers@[0]@, d.len as int) != ((*d.child_data@[0]).len as i32) {
        e == ArrowError::InconsistentOffsets
    } else {
        false
    }
}

/// The logical offset composes with offset-table reads exactly as with the
/// fixed-width reads: a list built with container offset `o` reads for
/// logical element `i` the offsets an offset-zero view of the same offsets
/// buffer reads for raw element `i + o`.
pub proof fn lemma_offset_composes_list(a: ListArray, b: ListArray, i: int)
    requires
        a.offsets_bytes() == b.offsets_bytes(),
        b.spec_data().offset == 0,
    ensures
        a.offset_at(a.spec_data().offset + i) == b.offset_at(i + a.spec_data().offset),
{
}

/// An array where each element is a variable-sized run of values of one type.
#[derive(Debug)]
pub struct ListArray {
    data: ArrayDataRef,
    values: ArrayRef,
    value_offsets: Buffer,
}

impl ListArray {
    #[verifier::type_invariant]
    spec fn wf(self) -> bool {
        &&& list_shape(*self.data)
        &&& self.value_offsets == self.data.buffers@[0]
        &&& models(*self.values, *self.data.child_data@[0])
    }

    /// The bytes of the offsets buffer.
    pub open spec fn offsets_bytes(&self) -> Seq<u8> {
        self.spec_data().buffers@[0]@
    }

    /// The offset stored at raw slot `k` of the offsets buffer.
    pub open spec fn offset_at(&self, k: int) -> i32 {
        offset_value(self.offsets_bytes(), k)
    }

    /// Whether the offsets buffer holds a slot `k` at all.
    pub open spec fn offset_slot_readable(&self, k: int) -> bool {
        offset_readable(self.offsets_bytes(), k)
    }

    /// The child array holding the flattened element values.
    pub closed spec fn values_spec(&self) -> AnyArray {
        *self.values
    }

    /// Wraps a data container as a list array. Fatal unless the container
    /// holds exactly one buffer (the offsets) and one child container, the
    /// child reconstructs through the factory, the offsets buffer is 4-byte
    /// aligned and long enough for `length + 1` offsets, its first offset is
    /// zero, and its offset at the logical length equals the child's length.
    /// Which condition failed is reported as `list_rejection` states.
    pub fn from_data(data: ArrayDataRef) -> (r: Result<Self, ArrowError>)
        ensures
            r is Ok <==> (list_shape(*data) && factory_ok(*(*data).child_data@[0])),
            r matches Ok(a) ==> a.spec_data() == *data,
            r matches Ok(a) ==> models(a.values_spec(), *(*data).child_data@[0]),
            r matches Err(e) ==> list_rejection(*data, e),
        decreases *data, 0int,
    {
        if data.buffers().len() != 1 {
            return Err(ArrowError::BufferCountMismatch);
        }
        if data.child_data().len() != 1 {
            return Err(ArrowError::ChildCountMismatch);
        }
        proof {
            assert(decreases_to!(*data => (*data).child_data));
            assert(decreases_to!((*data).child_data => (*data).child_data@[0]));
        }
        let values = match make_array(&data.child_data()[0]) {
            Ok(v) => v,
            Err(e) => {
                return Err(e);
            },
        };
        if !data.buffers()[0].is_aligned(4) {
            return Err(ArrowError::UnalignedBuffer);
        }
        let value_offsets = data.buffers()[0].clone();
        let offsets_len = value_offsets.len();
        let dlen = data.len();
        if dlen >= offsets_len / 4 {
            return Err(ArrowError::ShortOffsetsBuffer);
        }
        proof {
            assert(4 * (dlen + 1) <= 4 * (offsets_len as int / 4));
            assert(4 * (offsets_len as int / 4) <= offsets_len);
        }
        if read_offset(&value_offsets, 0) != 0 {
            return Err(ArrowError::OffsetsNotStartingAtZero);
        }
        let child_len = data.child_data()[0].len();
        if read_offset(&value_offsets, dlen) != (child_len as i32) {
            return Err(ArrowError::InconsistentOffsets);
        }
        Ok(ListArray { data, values, value_offsets })
    }

    /// The child array of flattened values, as a fresh shared handle. Also
    /// answers for the shape construction validated: the wrapped container
    /// has the list shape, and the child array wraps its child container.
    pub fn values(&self) -> (r: ArrayRef)
        ensures
            *r == self.values_spec(),
            models(*r, *self.spec_data().child_data@[0]),
            list_shape(self.spec_data()),
    {
        proof {
            use_type_invariant(self);
        }
        arc_clone(&self.values)
    }

    /// The element type of this list: the child array's logical type, copied.
    pub fn value_type(&self) -> (t: DataType)
        ensures
            dt_eq(t, (*self.spec_data().child_data@[0]).data_type),
    {
        proof {
            use_type_invariant(self);
        }
        let values: &AnyArray = &self.values;
        values.data_type().clone()
    }

    /// The offset where element `i`'s values begin in the child array, the
    /// list's own logical offset applied; unchecked against the logical
    /// length.
    pub fn value_offset(&self, i: usize) -> (r: i32)
        requires
            self.offset_slot_readable(self.spec_data().offset + i),
        ensures
            r == self.offset_at(self.spec_data().offset + i),
    {
        proof {
            use_type_invariant(self);
        }
        // binds the buffer's byte length, whose machine bound the verifier
        // needs for the index arithmetic below
        let offsets_len = self.value_offsets.len();
        self.value_offset_at(self.data.offset() + i)
    }

    /// How many child values element `i` spans: the difference of its two
    /// bounding offsets; unchecked against the logical length.
    pub fn value_length(&self, i: usize) -> (r: i32)
        requires
            self.offset_slot_readable(self.spec_data().offset + i + 1),
            i32::MIN <= self.offset_at(self.spec_data().offset + i + 1) - self.offset_at(
                self.spec_data().offset + i,
            ) <= i32::MAX,
        ensures
            r == self.offset_at(self.spec_data().offset + i + 1) - self.offset_at(
                self.spec_data().offset + i,
            ),
    {
        proof {
            use_type_invariant(self);
        }
        // binds the buffer's byte length, whose machine bound the verifier
        // needs for the index arithmetic below
        let offsets_len = self.value_offsets.len();
        let pos = self.data.offset() + i;
        self.value_offset_at(pos + 1) - self.value_offset_at(pos)
    }

    fn value_offset_at(&self, i: usize) -> (r: i32)
        requires
            self.offset_slot_readable(i as int),
        ensures
            r == self.offset_at(i as int),
    {
        proof {
            use_type_invariant(self);
        }
        read_offset(&self.value_offsets, i)
    }
}

impl Array for ListArray {
    closed spec fn spec_data(&self) -> ArrayData {
        *self.data
    }

    open spec fn spec_len(&self) -> nat {
        self.spec_data().len as nat
    }

    fn data(&self) -> (d: ArrayDataRef) {
        arc_clone(&self.data)
    }

    fn data_ref(&self) -> (d: &ArrayDataRef) {
        &self.data
    }

    fn data_type(&self) -> (t: &DataType) {
        self.data.data_type()
    }

    fn len(&self) -> (n: usize) {
        self.data.len()
    }

    fn offset(&self) -> (o: usize) {
        self.data.offset()
    }

    fn null_count(&self) -> (n: usize) {
        self.data.null_count()
    }

    fn is_null(&self, i: usize) -> (r: bool) {
        self.data.is_null(i)
    }

    fn is_valid(&self, i: usize) -> (r: bool) {
        self.data.is_valid(i)
    }
}

} // verus!
