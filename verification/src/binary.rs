//! The variable-length binary/text layout: the same offsets scheme as the
//! list layout, specialized to a flat byte payload, so that the common byte
//! and string case needs no child array. Element access here is the one
//! checked accessor of the library: it validates its index against the
//! logical length and reports an out-of-bounds condition.

use vstd::prelude::*;
use vstd::string::StringSliceAdditionalSpecFns;
use vstd::utf8::{decode_utf8, valid_utf8};

use crate::arc_clone;
use crate::array::{Array, AnyArray};
use crate::list::ListArray;
use crate::array_data::{ArrayData, ArrayDataRef};
use crate::buffer::Buffer;
use crate::datatypes::DataType;
use crate::error::ArrowError;
use crate::native::{read_bytes, write_u32_le};
use crate::offsets::{offset_readable, offset_value, read_offset};

verus! {

/// An array of variable-length byte elements: an offsets buffer and a payload
/// buffer, no child array.
#[derive(Debug)]
pub struct BinaryArray {
    data: ArrayDataRef,
    value_offsets: Buffer,
    value_data: Buffer,
}

/// What reinterpreting a list container `d` as a binary/text container `b`
/// leaves behind: the list's own offsets buffer and its child's values buffer
/// become the two buffers, the length and null bitmap carry over (with the
/// null count when a bitmap is present), no child containers remain, and the
/// result starts at offset zero.
pub open spec fn reinterpreted_list(d: ArrayData, b: ArrayData) -> bool {
    &&& b.data_type == DataType::Utf8
    &&& b.len == d.len
    &&& b.offset == 0
    &&& b.buffers@.len() == 2
    &&& b.child_data@.len() == 0
    &&& b.buffers@[0] == d.buffers@[0]
    &&& b.buffers@[1] == (*d.child_data@[0]).buffers@[0]
    &&& b.null_bitmap == d.null_bitmap
    &&& b.null_count == (if d.null_bitmap is Some {
        d.null_count
    } else {
        0
    })
}

/// The list-of-bytes reinterpretation is lossless: two binary/text arrays
/// over the same offsets bytes, the same payload bytes, and the same logical
/// offset decode the same offsets and the same value at every index — so an
/// array reinterpreted from a list reads exactly as one built directly from
/// the same logical strings.
pub proof fn lemma_reinterpret_reads_equal(b1: BinaryArray, b2: BinaryArray)
    requires
        b1.offsets_bytes() == b2.offsets_bytes(),
        b1.payload_bytes() == b2.payload_bytes(),
        b1.spec_data().offset == b2.spec_data().offset,
    ensures
        forall|k: int| #[trigger] b1.offset_at(k) == b2.offset_at(k),
        forall|i: int| #[trigger] b1.value_bytes_spec(i) == b2.value_bytes_spec(i),
{
}

/// The logical offset composes with offset-table reads in the binary/text
/// layout exactly as in the list layout: a view built with container offset
/// `o` reads for logical element `i` the span an offset-zero view of the same
/// buffers reads for raw element `i + o`.
pub proof fn lemma_offset_composes_binary(a: BinaryArray, b: BinaryArray, i: int)
    requires
        a.offsets_bytes() == b.offsets_bytes(),
        a.payload_bytes() == b.payload_bytes(),
        b.spec_data().offset == 0,
    ensures
        a.offset_at(a.spec_data().offset + i) == b.offset_at(i + a.spec_data().offset),
        a.value_bytes_spec(i) == b.value_bytes_spec(i + a.spec_data().offset),
{
}

/// The total byte length of the first `k` slices.
pub open spec fn bytes_prefix(s: Seq<&[u8]>, k: int) -> int
    decreases k,
{
    if k <= 0 {
        0
    } else {
        bytes_prefix(s, k - 1) + s[k - 1]@.len()
    }
}

proof fn lemma_prefix_mono(s: Seq<&[u8]>, j: int, k: int)
    requires
        0 <= j <= k,
    ensures
        0 <= bytes_prefix(s, j) <= bytes_prefix(s, k),
    decreases k,
{
    if k > 0 {
        if j <= k - 1 {
            lemma_prefix_mono(s, j, k - 1);
        } else {
            lemma_prefix_mono(s, k - 1, k - 1);
        }
    }
}

impl BinaryArray {
    #[verifier::type_invariant]
    spec fn wf(self) -> bool {
        &&& self.data.buffers@.len() == 2
        &&& self.value_offsets == self.data.buffers@[0]
        &&& self.value_data == self.data.buffers@[1]
        &&& self.data.buffers@[0].start_pos() % 4 == 0
    }

    /// The bytes of the offsets buffer.
    pub open spec fn offsets_bytes(&self) -> Seq<u8> {
        self.spec_data().buffers@[0]@
    }

    /// The bytes of the payload buffer.
    pub open spec fn payload_bytes(&self) -> Seq<u8> {
        self.spec_data().buffers@[1]@
    }

    /// The offset stored at raw slot `k` of the offsets buffer.
    pub open spec fn offset_at(&self, k: int) -> i32 {
        offset_value(self.offsets_bytes(), k)
    }

    /// Whether the offsets buffer holds a slot `k` at all.
    pub open spec fn offset_slot_readable(&self, k: int) -> bool {
        offset_readable(self.offsets_bytes(), k)
    }

    /// The byte span of logical element `i`: the payload between offsets
    /// `offset + i` and `offset + i + 1`.
    pub open spec fn value_bytes_spec(&self, i: int) -> Seq<u8> {
        self.payload_bytes().subrange(
            self.offset_at(self.spec_data().offset + i) as int,
            self.offset_at(self.spec_data().offset + i + 1) as int,
        )
    }

    /// What reading element `i` needs of the two buffers: both bounding
    /// offsets present, and the span they delimit lying within the payload.
    pub open spec fn value_access_ok(&self, i: int) -> bool {
        &&& 0 <= i
        &&& self.offset_slot_readable(self.spec_data().offset + i + 1)
        &&& 0 <= self.offset_at(self.spec_data().offset + i)
        &&& self.offset_at(self.spec_data().offset + i) <= self.offset_at(
            self.spec_data().offset + i + 1,
        )
        &&& self.offset_at(self.spec_data().offset + i + 1) <= self.payload_bytes().len()
    }

    /// Wraps a data container as a binary/text array. Fatal unless the
    /// container holds exactly two buffers (offsets, then payload) with the
    /// offsets buffer 4-byte aligned.
    pub fn from_data(data: ArrayDataRef) -> (r: Result<Self, ArrowError>)
        ensures
            r is Ok <==> ((*data).buffers@.len() == 2 && (*data).buffers@[0].start_pos() % 4 == 0),
            r matches Ok(a) ==> a.spec_data() == *data,
            (*data).buffers@.len() != 2 ==> r == Err::<Self, ArrowError>(
                ArrowError::BufferCountMismatch,
            ),
            ((*data).buffers@.len() == 2 && (*data).buffers@[0].start_pos() % 4 != 0) ==> r
                == Err::<Self, ArrowError>(ArrowError::UnalignedBuffer),
    {
        if data.buffers().len() != 2 {
            return Err(ArrowError::BufferCountMismatch);
        }
        if !data.buffers()[0].is_aligned(4) {
            return Err(ArrowError::UnalignedBuffer);
        }
        let value_offsets = data.buffers()[0].clone();
        let value_data = data.buffers()[1].clone();
        Ok(BinaryArray { data, value_offsets, value_data })
    }

    /// Element `i` as a byte vector. This accessor, alone among its siblings,
    /// checks its index against the logical length and reports out-of-bounds;
    /// the offsets it then reads are still trusted, as at every other access.
    pub fn value(&self, i: usize) -> (r: Result<Vec<u8>, ArrowError>)
        requires
            i < self.spec_data().len ==> self.value_access_ok(i as int),
        ensures
            i < self.spec_data().len ==> (r matches Ok(b) && b@ == self.value_bytes_spec(i as int)),
            i >= self.spec_data().len ==> r == Err::<Vec<u8>, ArrowError>(ArrowError::OutOfBounds),
    {
        if i >= self.data.len() {
            return Err(ArrowError::OutOfBounds);
        }
        proof {
            use_type_invariant(self);
        }
        // binds the buffer's byte length, whose machine bound the verifier
        // needs for the index arithmetic below
        let offsets_len = self.value_offsets.len();
        let off = self.data.offset();
        let start = self.value_offset_at(off + i);
        let end = self.value_offset_at(off + i + 1);
        let bytes = read_bytes(&self.value_data, start as usize, (end - start) as usize);
        Ok(bytes)
    }

    /// Element `i` decoded as text. Construction is trusted to have produced
    /// valid UTF-8; the caller answers for the encoding, as the precondition
    /// records.
    pub fn get_string(&self, i: usize) -> (r: Result<String, ArrowError>)
        requires
            i < self.spec_data().len ==> self.value_access_ok(i as int),
            i < self.spec_data().len ==> valid_utf8(self.value_bytes_spec(i as int)),
        ensures
            i < self.spec_data().len ==> (r matches Ok(s) && s@ == decode_utf8(
                self.value_bytes_spec(i as int),
            )),
            i >= self.spec_data().len ==> r == Err::<String, ArrowError>(ArrowError::OutOfBounds),
    {
        match self.value(i) {
            Ok(bytes) => match string_from_utf8(bytes) {
                Some(s) => Ok(s),
                None => vstd::pervasive::unreached(),
            },
            Err(e) => Err(e),
        }
    }

    /// The offset where logical element `i` begins, the array's own offset
    /// applied; unchecked against the logical length.
    pub fn value_offset(&self, i: usize) -> (r: i32)
        requires
            self.offset_slot_readable(self.spec_data().offset + i),
        ensures
            r == self.offset_at(self.spec_data().offset + i),
    {
        proof {
            use_type_invariant(self);
        }
        // binds the buffer's byte length, whose machine bound the verifier
        // needs for the index arithmetic below
        let offsets_len = self.value_offsets.len();
        self.value_offset_at(self.data.offset() + i)
    }

    /// The byte length of logical element `i`: the difference of its two
    /// bounding offsets; unchecked against the logical length.
    pub fn value_length(&self, i: usize) -> (r: i32)
        requires
            self.offset_slot_readable(self.spec_data().offset + i + 1),
            i32::MIN <= self.offset_at(self.spec_data().offset + i + 1) - self.offset_at(
                self.spec_data().offset + i,
            ) <= i32::MAX,
        ensures
            r == self.offset_at(self.spec_data().offset + i + 1) - self.offset_at(
                self.spec_data().offset + i,
            ),
    {
        proof {
            use_type_invariant(self);
        }
        // binds the buffer's byte length, whose machine bound the verifier
        // needs for the index arithmetic below
        let offsets_len = self.value_offsets.len();
        let pos = self.data.offset() + i;
        self.value_offset_at(pos + 1) - self.value_offset_at(pos)
    }

    fn value_offset_at(&self, i: usize) -> (r: i32)
        requires
            self.offset_slot_readable(i as int),
        ensures
            r == self.offset_at(i as int),
    {
        proof {
            use_type_invariant(self);
        }
        read_offset(&self.value_offsets, i)
    }

    /// Builds a text array from byte slices: offsets are the running totals
    /// of the slice lengths, and the payload is their concatenation. The
    /// offsets are 32-bit signed, which bounds the total payload.
    #[verifier::rlimit(50)]
    pub fn from_byte_slices(v: Vec<&[u8]>) -> (a: Self)
        requires
            bytes_prefix(v@, v@.len() as int) <= i32::MAX,
        ensures
            a.spec_data().data_type == DataType::Utf8,
            a.spec_data().len == v@.len(),
            a.spec_data().offset == 0,
            a.spec_data().null_count == 0,
            a.spec_data().null_bitmap is None,
            a.spec_data().child_data@.len() == 0,
            a.spec_data().buffers@.len() == 2,
            a.spec_data().buffers@[0].start_pos() == 0,
            a.spec_data().buffers@[1].start_pos() == 0,
            a.offsets_bytes().len() == 4 * (v@.len() + 1),
            a.payload_bytes().len() == bytes_prefix(v@, v@.len() as int),
            forall|k: int| 0 <= k <= v@.len() ==> a.offset_at(k) == bytes_prefix(v@, k),
            forall|i: int| 0 <= i < v@.len() ==> a.value_access_ok(i),
            forall|i: int| #![trigger v@[i]] 0 <= i < v@.len() ==> a.value_bytes_spec(i) == v@[i]@,
    {
        let n = v.len();
        let mut offsets_buf: Vec<u8> = Vec::new();
        let mut values: Vec<u8> = Vec::new();
        let mut length_so_far: i32 = 0;
        write_u32_le(0u32, &mut offsets_buf);
        proof {
            vstd::bytes::lemma_auto_spec_u32_to_from_le_bytes();
            assert(vstd::bytes::spec_u32_to_le_bytes(0u32).len() == 4);
            assert(offsets_buf@.subrange(0, 4) =~= vstd::bytes::spec_u32_to_le_bytes(0u32));
            assert(offset_value(offsets_buf@, 0) == 0);
        }
        let mut i: usize = 0;
        while i < n
            invariant
                i <= n,
                bytes_prefix(v@, n as int) <= i32::MAX,
                offsets_buf@.len() == 4 * (i + 1),
                values@.len() == bytes_prefix(v@, i as int),
                length_so_far == bytes_prefix(v@, i as int),
                0 <= length_so_far,
                forall|k: int|
                    #![trigger offset_value(offsets_buf@, k)]
                    0 <= k <= i ==> offset_value(offsets_buf@, k) == bytes_prefix(v@, k),
                forall|k: int|
                    #![trigger v@[k]]
                    0 <= k < i ==> values@.subrange(bytes_prefix(v@, k), bytes_prefix(v@, k + 1))
                        == v@[k]@,
            decreases n - i,
        {
            let ghost old_offsets = offsets_buf@;
            let ghost old_values = values@;
            let s = v[i];
            proof {
                lemma_prefix_mono(v@, 0, i as int);
                lemma_prefix_mono(v@, i + 1, n as int);
            }
            length_so_far = length_so_far + (s.len() as i32);
            write_u32_le(length_so_far as u32, &mut offsets_buf);
            values.extend_from_slice(s);
            proof {
                assert(values@ =~= old_values + s@);
                lemma_offsets_step(old_offsets, offsets_buf@, v@, i as int, length_so_far);
                lemma_values_step(old_values, values@, v@, i as int);
            }
            i = i + 1;
        }
        let data = ArrayData::builder(DataType::Utf8).len(n).add_buffer(
            Buffer::from_vec(offsets_buf),
        ).add_buffer(Buffer::from_vec(values)).build();
        proof {
            assert((*data).buffers@.len() == 2);
            assert((*data).buffers@[0].start_pos() % 4 == 0);
        }
        let a = match Self::from_data(data) {
            Ok(a) => a,
            Err(_) => vstd::pervasive::unreached(),
        };
        proof {
            assert forall|i: int| #![trigger v@[i]] 0 <= i < v@.len() implies a.value_access_ok(i)
                && a.value_bytes_spec(i) == v@[i]@ by {
                lemma_prefix_mono(v@, 0, i);
                lemma_prefix_mono(v@, i + 1, n as int);
            }
        }
        a
    }

    /// Reinterprets a list of unsigned 8-bit values as a binary/text array in
    /// O(1): the list's offsets buffer and the child's values buffer become
    /// this layout's two buffers directly, the null bitmap carried over, no
    /// bytes copied and no child array kept. Fatal when the list's child is
    /// nested or is not the 8-bit unsigned type.
    pub fn from_list(v: ListArray) -> (r: Result<Self, ArrowError>)
        ensures
            r is Ok <==> ((*v.spec_data().child_data@[0]).child_data@.len() == 0
                && (*v.spec_data().child_data@[0]).data_type is UInt8),
            (*v.spec_data().child_data@[0]).child_data@.len() != 0 ==> r == Err::<Self, ArrowError>(
                ArrowError::NestedListChild,
            ),
            ((*v.spec_data().child_data@[0]).child_data@.len() == 0 && !((
            *v.spec_data().child_data@[0]).data_type is UInt8)) ==> r == Err::<Self, ArrowError>(
                ArrowError::ListChildTypeMismatch,
            ),
            r matches Ok(b) ==> reinterpreted_list(v.spec_data(), b.spec_data()),
    {
        let values_arc = v.values();
        let data = v.data();
        if data.child_data()[0].child_data().len() != 0 {
            return Err(ArrowError::NestedListChild);
        }
        let child_is_u8 = match data.child_data()[0].data_type() {
            DataType::UInt8 => true,
            _ => false,
        };
        if !child_is_u8 {
            return Err(ArrowError::ListChildTypeMismatch);
        }
        let child_values: Buffer = match &*values_arc {
            AnyArray::UInt8(p) => p.values(),
            _ => vstd::pervasive::unreached(),
        };
        let mut builder = ArrayData::builder(DataType::Utf8).len(data.len()).add_buffer(
            data.buffers()[0].clone(),
        ).add_buffer(child_values);
        match data.null_bitmap() {
            Some(bitmap) => {
                let nulls = data.null_count();
                let bits = bitmap.clone();
                builder = builder.null_count(nulls).null_bit_buffer(bits);
            },
            None => {},
        }
        let built = builder.build();
        match Self::from_data(built) {
            Ok(b) => Ok(b),
            Err(_) => vstd::pervasive::unreached(),
        }
    }

    /// Builds a text array from strings: their UTF-8 bytes laid out by
    /// `from_byte_slices`.
    pub fn from_strs(v: Vec<&str>) -> (a: Self)
        requires
            strs_prefix(v@, v@.len() as int) <= i32::MAX,
        ensures
            a.spec_data().data_type == DataType::Utf8,
            a.spec_data().len == v@.len(),
            a.spec_data().offset == 0,
            a.spec_data().null_count == 0,
            a.spec_data().null_bitmap is None,
            a.spec_data().child_data@.len() == 0,
            a.spec_data().buffers@.len() == 2,
            a.spec_data().buffers@[0].start_pos() == 0,
            a.spec_data().buffers@[1].start_pos() == 0,
            forall|k: int| 0 <= k <= v@.len() ==> a.offset_at(k) == strs_prefix(v@, k),
            forall|i: int| 0 <= i < v@.len() ==> a.value_access_ok(i),
            forall|i: int|
                #![trigger v@[i]]
                0 <= i < v@.len() ==> a.value_bytes_spec(i) == v@[i].spec_bytes(),
    {
        let mut slices: Vec<&[u8]> = Vec::new();
        let mut i: usize = 0;
        while i < v.len()
            invariant
                i <= v@.len(),
                slices@.len() == i as int,
                forall|j: int| 0 <= j < i ==> slices@[j]@ == v@[j].spec_bytes(),
            decreases v@.len() - i,
        {
            slices.push(v[i].as_bytes());
            i = i + 1;
        }
        proof {
            lemma_prefix_congruent(slices@, v@, v@.len() as int);
            assert forall|k: int| 0 <= k <= v@.len() implies bytes_prefix(slices@, k)
                == strs_prefix(v@, k) by {
                lemma_prefix_congruent(slices@, v@, k);
            }
        }
        Self::from_byte_slices(slices)
    }
}

/// The total UTF-8 byte length of the first `k` strings.
pub open spec fn strs_prefix(s: Seq<&str>, k: int) -> int
    decreases k,
{
    if k <= 0 {
        0
    } else {
        strs_prefix(s, k - 1) + s[k - 1].spec_bytes().len()
    }
}

proof fn lemma_offsets_step(old_b: Seq<u8>, new_b: Seq<u8>, v: Seq<&[u8]>, i: int, val: i32)
    requires
        0 <= i,
        old_b.len() == 4 * (i + 1),
        new_b == old_b + vstd::bytes::spec_u32_to_le_bytes(val as u32),
        forall|k: int|
            #![trigger offset_value(old_b, k)]
            0 <= k <= i ==> offset_value(old_b, k) == bytes_prefix(v, k),
        val == bytes_prefix(v, i + 1),
    ensures
        new_b.len() == 4 * (i + 2),
        forall|k: int|
            #![trigger offset_value(new_b, k)]
            0 <= k <= i + 1 ==> offset_value(new_b, k) == bytes_prefix(v, k),
{
    vstd::bytes::lemma_auto_spec_u32_to_from_le_bytes();
    assert(vstd::bytes::spec_u32_to_le_bytes(val as u32).len() == 4);
    assert forall|k: int| #![trigger offset_value(new_b, k)] 0 <= k <= i + 1 implies offset_value(
        new_b,
        k,
    ) == bytes_prefix(v, k) by {
        if k <= i {
            assert(new_b.subrange(4 * k, 4 * k + 4) =~= old_b.subrange(4 * k, 4 * k + 4));
            assert(offset_value(old_b, k) == bytes_prefix(v, k));
        } else {
            assert(new_b.subrange(4 * k, 4 * k + 4) =~= vstd::bytes::spec_u32_to_le_bytes(
                val as u32,
            ));
            assert((val as u32) as i32 == val) by (bit_vector);
        }
    }
}

#[verifier::rlimit(50)]
proof fn lemma_values_step(old_v: Seq<u8>, new_v: Seq<u8>, v: Seq<&[u8]>, i: int)
    requires
        0 <= i < v.len(),
        old_v.len() == bytes_prefix(v, i),
        new_v == old_v + v[i]@,
        forall|k: int|
            #![trigger v[k]]
            0 <= k < i ==> old_v.subrange(bytes_prefix(v, k), bytes_prefix(v, k + 1)) == v[k]@,
    ensures
        new_v.len() == bytes_prefix(v, i + 1),
        forall|k: int|
            #![trigger v[k]]
            0 <= k < i + 1 ==> new_v.subrange(bytes_prefix(v, k), bytes_prefix(v, k + 1)) == v[k]@,
{
    assert forall|k: int| #![trigger v[k]] 0 <= k < i + 1 implies new_v.subrange(
        bytes_prefix(v, k),
        bytes_prefix(v, k + 1),
    ) == v[k]@ by {
        lemma_prefix_mono(v, 0, k);
        if k < i {
            lemma_prefix_mono(v, k + 1, i);
            assert(new_v.subrange(bytes_prefix(v, k), bytes_prefix(v, k + 1)) =~= old_v.subrange(
                bytes_prefix(v, k),
                bytes_prefix(v, k + 1),
            ));
        } else {
            assert(new_v.subrange(bytes_prefix(v, k), bytes_prefix(v, k + 1)) =~= v[i]@);
        }
    }
}

proof fn lemma_prefix_congruent(a: Seq<&[u8]>, b: Seq<&str>, k: int)
    requires
        a.len() == b.len(),
        k <= a.len(),
        forall|j: int| 0 <= j < a.len() ==> a[j]@ == b[j].spec_bytes(),
    ensures
        bytes_prefix(a, k) == strs_prefix(b, k),
    decreases k,
{
    if k > 0 {
        lemma_prefix_congruent(a, b, k - 1);
    }
}

impl Array for BinaryArray {
    closed spec fn spec_data(&self) -> ArrayData {
        *self.data
    }

    open spec fn spec_len(&self) -> nat {
        self.spec_data().len as nat
    }

    fn data(&self) -> (d: ArrayDataRef) {
        arc_clone(&self.data)
    }

    fn data_ref(&self) -> (d: &ArrayDataRef) {
        &self.data
    }

    fn data_type(&self) -> (t: &DataType) {
        self.data.data_type()
    }

    fn len(&self) -> (n: usize) {
        self.data.len()
    }

    fn offset(&self) -> (o: usize) {
        self.data.offset()
    }

    fn null_count(&self) -> (n: usize) {
        self.data.null_count()
    }

    fn is_null(&self, i: usize) -> (r: bool) {
        self.data.is_null(i)
    }

    fn is_valid(&self, i: usize) -> (r: bool) {
        self.data.is_valid(i)
    }
}

/// Relies on std's String::from_utf8: succeeds exactly on valid UTF-8 input,
/// and the characters of the result are the UTF-8 decoding of the bytes.
#[verifier::external_body]
fn string_from_utf8(bytes: Vec<u8>) -> (r: Option<String>)
    ensures
        r is Some <==> valid_utf8(bytes@),
        r matches Some(s) ==> s@ == decode_utf8(bytes@),
{
    String::from_utf8(bytes).ok()
}

} // verus!
