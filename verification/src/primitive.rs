//! The fixed-width layouts: one flat values buffer, typed zero-copy access,
//! and a bit-packed specialization for booleans. Value access applies the
//! array's logical offset and deliberately performs no bounds check against
//! the logical length; what each read needs of the raw buffer is stated in
//! its precondition, and construction validates buffer count and alignment.

use vstd::prelude::*;

use crate::arc_clone;
use crate::array::Array;
use crate::array_data::{ArrayData, ArrayDataRef};
use crate::bits::{bit_bytes, ceil8, nth_bit, push_zeros, set_bit, zero_bytes, zero_seq};
use crate::buffer::Buffer;
use crate::datatypes::DataType;
use crate::error::ArrowError;
use crate::native::{ArrowNumericType, ArrowPrimitiveType, BooleanType};

verus! {

use std::marker::PhantomData;

/// An array whose elements are of a fixed-width primitive type.
#[derive(Debug)]
pub struct PrimitiveArray<T: ArrowPrimitiveType> {
    data: ArrayDataRef,
    /// The container's single values buffer, held directly: a shared view
    /// into the same storage, kept alive by the reference-counted container.
    raw_values: Buffer,
    native_type: PhantomData<T>,
}

pub type BooleanArray = PrimitiveArray<BooleanType>;

pub type Int8Array = PrimitiveArray<crate::native::Int8Type>;

pub type Int16Array = PrimitiveArray<crate::native::Int16Type>;

pub type Int32Array = PrimitiveArray<crate::native::Int32Type>;

pub type Int64Array = PrimitiveArray<crate::native::Int64Type>;

pub type UInt8Array = PrimitiveArray<crate::native::UInt8Type>;

pub type UInt16Array = PrimitiveArray<crate::native::UInt16Type>;

pub type UInt32Array = PrimitiveArray<crate::native::UInt32Type>;

pub type UInt64Array = PrimitiveArray<crate::native::UInt64Type>;

pub type Float32Array = PrimitiveArray<crate::native::Float32Type>;

pub type Float64Array = PrimitiveArray<crate::native::Float64Type>;

pub type TimestampSecondArray = PrimitiveArray<crate::native::TimestampSecondType>;

pub type TimestampMillisecondArray = PrimitiveArray<crate::native::TimestampMillisecondType>;

pub type TimestampMicrosecondArray = PrimitiveArray<crate::native::TimestampMicrosecondType>;

pub type TimestampNanosecondArray = PrimitiveArray<crate::native::TimestampNanosecondType>;

pub type Date32Array = PrimitiveArray<crate::native::Date32Type>;

pub type Date64Array = PrimitiveArray<crate::native::Date64Type>;

pub type Time32SecondArray = PrimitiveArray<crate::native::Time32SecondType>;

pub type Time32MillisecondArray = PrimitiveArray<crate::native::Time32MillisecondType>;

pub type Time64MicrosecondArray = PrimitiveArray<crate::native::Time64MicrosecondType>;

pub type Time64NanosecondArray = PrimitiveArray<crate::native::Time64NanosecondType>;

/// How many of the options in `s` are `None`.
pub open spec fn count_nones<N>(s: Seq<Option<N>>) -> nat
    decreases s.len(),
{
    if s.len() == 0 {
        0
    } else {
        count_nones(s.drop_last()) + (if s.last() is None {
            1nat
        } else {
            0nat
        })
    }
}

proof fn lemma_mul_le(a: int, b: int, w: int)
    by (nonlinear_arith)
    requires
        a <= b,
        0 <= w,
    ensures
        a * w <= b * w,
{
}

proof fn lemma_mul_bounds(a: int, w: int)
    by (nonlinear_arith)
    requires
        0 <= a,
        1 <= w,
    ensures
        a <= a * w,
        0 <= a * w,
        (a + 1) * w == a * w + w,
{
}

impl<T: ArrowPrimitiveType> PrimitiveArray<T> {
    #[verifier::type_invariant]
    spec fn wf(self) -> bool {
        &&& self.data.buffers@.len() == 1
        &&& self.raw_values == self.data.buffers@[0]
        &&& T::align_spec() > 0
        &&& self.data.buffers@[0].start_pos() % T::align_spec() == 0
    }

    /// The bytes of the values buffer, offset not yet applied.
    pub open spec fn values_bytes(&self) -> Seq<u8> {
        self.spec_data().buffers@[0]@
    }

    /// Wraps a data container as a fixed-width array. Fatal unless the
    /// container holds exactly one buffer whose start is aligned to the
    /// element type's native size (one byte for bit-packed booleans).
    pub fn from_data(data: ArrayDataRef) -> (r: Result<Self, ArrowError>)
        ensures
            r is Ok <==> ((*data).buffers@.len() == 1 && (*data).buffers@[0].start_pos()
                % T::align_spec() == 0),
            r matches Ok(a) ==> a.spec_data() == *data,
            (*data).buffers@.len() != 1 ==> r == Err::<Self, ArrowError>(
                ArrowError::BufferCountMismatch,
            ),
            ((*data).buffers@.len() == 1 && (*data).buffers@[0].start_pos() % T::align_spec() != 0)
                ==> r == Err::<Self, ArrowError>(ArrowError::UnalignedBuffer),
    {
        if data.buffers().len() != 1 {
            return Err(ArrowError::BufferCountMismatch);
        }
        let align = T::alignment();
        if !data.buffers()[0].is_aligned(align) {
            return Err(ArrowError::UnalignedBuffer);
        }
        let raw_values = data.buffers()[0].clone();
        Ok(PrimitiveArray { data, raw_values, native_type: PhantomData })
    }

    /// Builds a container from the given parts and wraps it. Fatal when the
    /// values buffer is misaligned for the element type.
    pub fn new(length: usize, values: Buffer, null_count: usize, offset: usize) -> (r: Result<
        Self,
        ArrowError,
    >)
        ensures
            r is Ok <==> values.start_pos() % T::align_spec() == 0,
            r matches Ok(a) ==> {
                &&& a.spec_data().data_type == T::data_type_spec()
                &&& a.spec_data().len == length
                &&& a.spec_data().null_count == null_count
                &&& a.spec_data().offset == offset
                &&& a.spec_data().buffers@ == seq![values]
                &&& a.spec_data().child_data@.len() == 0
                &&& a.spec_data().null_bitmap is None
            },
            r matches Err(e) ==> e == ArrowError::UnalignedBuffer,
    {
        let data = ArrayData::builder(T::get_data_type()).len(length).add_buffer(
            values,
        ).null_count(null_count).offset(offset).build();
        proof {
            assert((*data).buffers@ =~= seq![values]);
        }
        Self::from_data(data)
    }

    /// The buffer that holds all the values of this array, as a fresh shared
    /// handle. The array's logical offset is not applied.
    pub fn values(&self) -> (b: Buffer)
        ensures
            b == self.spec_data().buffers@[0],
    {
        proof {
            use_type_invariant(self);
        }
        self.raw_values.clone()
    }

    /// The length of this array.
    pub fn len(&self) -> (n: usize)
        ensures
            n == self.spec_data().len,
    {
        self.data.len()
    }
}

impl<T: ArrowPrimitiveType> Array for PrimitiveArray<T> {
    closed spec fn spec_data(&self) -> ArrayData {
        *self.data
    }

    open spec fn spec_len(&self) -> nat {
        self.spec_data().len as nat
    }

    fn data(&self) -> (d: ArrayDataRef) {
        arc_clone(&self.data)
    }

    fn data_ref(&self) -> (d: &ArrayDataRef) {
        &self.data
    }

    fn data_type(&self) -> (t: &DataType) {
        self.data.data_type()
    }

    fn len(&self) -> (n: usize) {
        self.data.len()
    }

    fn offset(&self) -> (o: usize) {
        self.data.offset()
    }

    fn null_count(&self) -> (n: usize) {
        self.data.null_count()
    }

    fn is_null(&self, i: usize) -> (r: bool) {
        self.data.is_null(i)
    }

    fn is_valid(&self, i: usize) -> (r: bool) {
        self.data.is_valid(i)
    }
}

impl<T: ArrowNumericType> PrimitiveArray<T> {
    /// The value at logical index `i`: the element decoded from the raw
    /// buffer at raw index `i` plus the logical offset.
    pub open spec fn value_spec(&self, i: int) -> T::Native {
        T::decode_spec(
            self.values_bytes().subrange(
                (self.spec_data().offset + i) * T::width_spec(),
                (self.spec_data().offset + i + 1) * T::width_spec(),
            ),
        )
    }

    /// What reading logical index `i` needs of the raw buffer. Value access
    /// does not check `i` against the logical length; this is the caller's
    /// contract.
    pub open spec fn value_readable(&self, i: int) -> bool {
        &&& 0 <= i
        &&& (self.spec_data().offset + i + 1) * T::width_spec() <= self.values_bytes().len()
    }

    /// Element `i` as the array's user reads it: `None` where the null bitmap
    /// marks a null, the stored value otherwise.
    pub open spec fn logical_value(&self, i: int) -> Option<T::Native> {
        if self.spec_data().valid_at(i) {
            Some(self.value_spec(i))
        } else {
            None
        }
    }

    /// The value at logical index `i`, unchecked against the logical length
    /// for performance: the caller answers for `i` lying within the buffer.
    pub fn value(&self, i: usize) -> (v: T::Native)
        requires
            self.value_readable(i as int),
        ensures
            v == self.value_spec(i as int),
    {
        proof {
            use_type_invariant(self);
        }
        let w = T::width();
        let off = self.data.offset();
        let buf_len = self.raw_values.len();
        proof {
            lemma_mul_bounds(off + i, T::width_spec() as int);
            lemma_mul_bounds(off + i + 1, T::width_spec() as int);
        }
        let pos = (off + i) * w;
        T::read_at(&self.raw_values, pos)
    }

    /// The `len` values at logical indexes `offset..offset + len`, honoring
    /// the array's own logical offset but not re-validated against its
    /// logical length: out-of-range reads are the caller's responsibility.
    pub fn value_slice(&self, offset: usize, len: usize) -> (vs: Vec<T::Native>)
        requires
            (self.spec_data().offset + offset + len) * T::width_spec()
                <= self.values_bytes().len(),
        ensures
            vs@.len() == len,
            forall|k: int| 0 <= k < len ==> vs@[k] == self.value_spec(offset + k),
    {
        let w = T::width();
        proof {
            use_type_invariant(self);
            lemma_mul_bounds(self.spec_data().offset + offset + len, T::width_spec() as int);
        }
        let buf_len = self.raw_values.len();
        let mut vs: Vec<T::Native> = Vec::new();
        let mut k: usize = 0;
        while k < len
            invariant
                k <= len,
                vs@.len() == k as int,
                forall|j: int| 0 <= j < k ==> vs@[j] == self.value_spec(offset + j),
            decreases len - k,
        {
            proof {
                lemma_mul_le(
                    self.spec_data().offset + offset + k + 1,
                    self.spec_data().offset + offset + len,
                    T::width_spec() as int,
                );
            }
            vs.push(self.value(offset + k));
            k = k + 1;
        }
        vs
    }

    /// Every complete element from the array's logical start to the end of
    /// the values buffer, decoded. The safe analogue of handing out a raw
    /// pointer to the offset element: the length is not the array's logical
    /// length but what the buffer holds.
    pub fn raw_values(&self) -> (vs: Vec<T::Native>)
        requires
            self.spec_data().offset * T::width_spec() <= self.values_bytes().len(),
        ensures
            vs@.len() == (self.values_bytes().len() - self.spec_data().offset * T::width_spec())
                as int / T::width_spec() as int,
            forall|k: int| 0 <= k < vs@.len() ==> vs@[k] == self.value_spec(k),
    {
        let w = T::width();
        proof {
            use_type_invariant(self);
            lemma_mul_bounds(self.spec_data().offset as int, T::width_spec() as int);
        }
        let off = self.data.offset();
        let buf_len = self.raw_values.len();
        let head = off * w;
        let n = (buf_len - head) / w;
        proof {
            let rest = buf_len - head;
            vstd::arithmetic::div_mod::lemma_fundamental_div_mod(rest as int, w as int);
            vstd::arithmetic::div_mod::lemma_mod_bound(rest as int, w as int);
            assert((off + n) * w == off * w + n * w) by (nonlinear_arith);
            assert(n * w == (rest as int / w as int) * w) by (nonlinear_arith)
                requires
                    n == rest as int / w as int,
                    w > 0,
            ;
            assert((off + 0 + n) * w <= buf_len);
        }
        self.value_slice(0, n)
    }

    /// Builds an array from plain values: one buffer holding each value's
    /// native encoding in order, no nulls, offset zero.
    pub fn from_vec(v: Vec<T::Native>) -> (a: Self)
        ensures
            a.spec_data().data_type == T::data_type_spec(),
            a.spec_data().len == v@.len(),
            a.spec_data().offset == 0,
            a.spec_data().null_count == 0,
            a.spec_data().null_bitmap is None,
            a.spec_data().child_data@.len() == 0,
            a.spec_data().buffers@.len() == 1,
            a.spec_data().buffers@[0].start_pos() == 0,
            a.values_bytes().len() == v@.len() * T::width_spec(),
            forall|i: int| 0 <= i < v@.len() ==> a.value_readable(i),
            forall|i: int| 0 <= i < v@.len() ==> a.value_spec(i) == v@[i],
    {
        let w = T::width();
        let buf = encode_values::<T>(&v);
        let n = v.len();
        let data = ArrayData::builder(T::get_data_type()).len(n).add_buffer(
            Buffer::from_vec(buf),
        ).build();
        proof {
            assert((*data).buffers@.len() == 1);
            assert((*data).buffers@[0].start_pos() == 0);
            assert((*data).buffers@[0].start_pos() % T::align_spec() == 0);
        }
        let a = match Self::from_data(data) {
            Ok(a) => a,
            Err(_) => vstd::pervasive::unreached(),
        };
        proof {
            assert forall|i: int| 0 <= i < v@.len() implies a.value_readable(i) && a.value_spec(i)
                == v@[i] by {
                lemma_mul_bounds(i, T::width_spec() as int);
                lemma_mul_le(i + 1, v@.len() as int, T::width_spec() as int);
                T::encode_properties(v@[i]);
            }
        }
        a
    }

    /// Builds an array from optional values, as a test or a caller without a
    /// builder would: a null bitmap with one bit per element, and a values
    /// buffer where every slot, null or not, occupies its fixed width — a
    /// null slot holds a zero placeholder, and only the bitmap signals
    /// nullity. Reading every index back reproduces the input exactly.
    pub fn from_opt_vec(v: Vec<Option<T::Native>>) -> (a: Self)
        ensures
            a.spec_data().data_type == T::data_type_spec(),
            a.spec_data().len == v@.len(),
            a.spec_data().offset == 0,
            a.spec_data().null_count == count_nones(v@),
            a.spec_data().null_bitmap matches Some(b) && b@.len() == ceil8(v@.len() as int),
            a.spec_data().child_data@.len() == 0,
            a.spec_data().buffers@.len() == 1,
            a.spec_data().buffers@[0].start_pos() == 0,
            a.values_bytes().len() == v@.len() * T::width_spec(),
            forall|i: int| 0 <= i < v@.len() ==> a.value_readable(i),
            forall|i: int| 0 <= i < v@.len() ==> a.spec_data().validity_readable(i),
            forall|i: int| 0 <= i < v@.len() ==> a.spec_data().valid_at(i) == (v@[i] is Some),
            forall|i: int| 0 <= i < v@.len() ==> a.logical_value(i) == v@[i],
            forall|i: int|
                #![trigger v@[i]]
                0 <= i < v@.len() && v@[i] is None ==> a.values_bytes().subrange(
                    i * T::width_spec(),
                    (i + 1) * T::width_spec(),
                ) == zero_seq(T::width_spec()),
    {
        let w = T::width();
        let n = v.len();
        let nb = bit_bytes(n);
        let mut null_buf = zero_bytes(nb);
        let mut val_buf: Vec<u8> = Vec::new();
        let mut null_count: usize = 0;
        let mut i: usize = 0;
        while i < n
            invariant
                i <= n,
                null_buf@.len() == ceil8(n as int),
                val_buf@.len() == i * T::width_spec(),
                null_count == count_nones(v@.subrange(0, i as int)),
                null_count <= i,
                forall|j: int| 0 <= j < i ==> nth_bit(null_buf@, j) == (v@[j] is Some),
                forall|j: int|
                    i <= j && j / 8 < null_buf@.len() ==> !nth_bit(null_buf@, j),
                forall|j: int|
                    #![trigger v@[j]]
                    0 <= j < i ==> (v@[j] matches Some(x) ==> val_buf@.subrange(
                        j * T::width_spec(),
                        (j + 1) * T::width_spec(),
                    ) == T::encode_spec(x)),
                forall|j: int|
                    #![trigger v@[j]]
                    0 <= j < i ==> (v@[j] is None ==> val_buf@.subrange(
                        j * T::width_spec(),
                        (j + 1) * T::width_spec(),
                    ) == zero_seq(T::width_spec())),
            decreases n - i,
        {
            let ghost old_val = val_buf@;
            match v[i] {
                Some(x) => {
                    proof {
                        assert(i as int / 8 < ceil8(n as int));
                    }
                    set_bit(&mut null_buf, i);
                    T::write_le(x, &mut val_buf);
                },
                None => {
                    null_count = null_count + 1;
                    push_zeros(&mut val_buf, w);
                },
            }
            proof {
                lemma_mul_bounds(i as int, T::width_spec() as int);
                assert(v@.subrange(0, i + 1).drop_last() =~= v@.subrange(0, i as int));
                assert(v@.subrange(0, i + 1).last() == v@[i as int]);
                assert forall|j: int| #![trigger v@[j]]
                    0 <= j < i + 1 implies ((v@[j] matches Some(x) ==> val_buf@.subrange(
                    j * T::width_spec(),
                    (j + 1) * T::width_spec(),
                ) == T::encode_spec(x)) && (v@[j] is None ==> val_buf@.subrange(
                    j * T::width_spec(),
                    (j + 1) * T::width_spec(),
                ) == zero_seq(T::width_spec()))) by {
                    if j < i {
                        lemma_mul_bounds(j, T::width_spec() as int);
                        lemma_mul_le(j + 1, i as int, T::width_spec() as int);
                        assert(val_buf@.subrange(j * T::width_spec(), (j + 1) * T::width_spec())
                            =~= old_val.subrange(j * T::width_spec(), (j + 1) * T::width_spec()));
                    } else {
                        if v@[j] is Some {
                            assert(val_buf@.subrange(
                                i as int * T::width_spec(),
                                (i + 1) * T::width_spec(),
                            ) =~= T::encode_spec(v@[j]->0));
                        } else {
                            assert(val_buf@.subrange(
                                i as int * T::width_spec(),
                                (i + 1) * T::width_spec(),
                            ) =~= zero_seq(T::width_spec()));
                        }
                    }
                }
            }
            i = i + 1;
        }
        proof {
            assert(v@.subrange(0, n as int) =~= v@);
        }
        let data = ArrayData::builder(T::get_data_type()).len(n).null_count(
            null_count,
        ).null_bit_buffer(Buffer::from_vec(null_buf)).add_buffer(Buffer::from_vec(val_buf)).build();
        proof {
            assert((*data).buffers@.len() == 1);
            assert((*data).buffers@[0].start_pos() == 0);
            assert((*data).buffers@[0].start_pos() % T::align_spec() == 0);
        }
        let a = match Self::from_data(data) {
            Ok(a) => a,
            Err(_) => vstd::pervasive::unreached(),
        };
        proof {
            assert forall|i: int| 0 <= i < v@.len() implies a.value_readable(i)
                && a.spec_data().validity_readable(i) && a.spec_data().valid_at(i) == (v@[i]
                is Some) && a.logical_value(i) == v@[i] by {
                lemma_mul_bounds(i, T::width_spec() as int);
                lemma_mul_le(i + 1, v@.len() as int, T::width_spec() as int);
                if v@[i] is Some {
                    T::encode_properties(v@[i]->0);
                }
            }
        }
        a
    }
}

/// The bit-packed boolean specialization: eight elements to a byte rather
/// than one value per addressable unit.
impl PrimitiveArray<BooleanType> {
    /// The value at logical index `i`: bit `i` plus the logical offset of the
    /// values buffer.
    pub open spec fn value_spec(&self, i: int) -> bool {
        nth_bit(self.values_bytes(), self.spec_data().offset + i)
    }

    /// What reading logical index `i` needs: the index within the logical
    /// length (offset applied), and the packed byte within the buffer.
    pub open spec fn value_readable(&self, i: int) -> bool {
        &&& 0 <= i
        &&& self.spec_data().offset + i < self.spec_data().len
        &&& (self.spec_data().offset + i) / 8 < self.values_bytes().len()
    }

    /// Element `i` as the array's user reads it: `None` where the null bitmap
    /// marks a null, the stored bit otherwise.
    pub open spec fn logical_value(&self, i: int) -> Option<bool> {
        if self.spec_data().valid_at(i) {
            Some(self.value_spec(i))
        } else {
            None
        }
    }

    /// The boolean at logical index `i`: one bit read from the byte-packed
    /// buffer at bit position `i` plus the logical offset.
    pub fn value(&self, i: usize) -> (v: bool)
        requires
            self.value_readable(i as int),
        ensures
            v == self.value_spec(i as int),
    {
        proof {
            use_type_invariant(self);
        }
        let pos = i + self.data.offset();
        self.raw_values.bit(pos)
    }

    /// Builds a boolean array from plain values: one bit-packed buffer, the
    /// bits past the last element left clear, no nulls, offset zero.
    pub fn from_vec(v: Vec<bool>) -> (a: Self)
        ensures
            a.spec_data().data_type == DataType::Boolean,
            a.spec_data().len == v@.len(),
            a.spec_data().offset == 0,
            a.spec_data().null_count == 0,
            a.spec_data().null_bitmap is None,
            a.spec_data().child_data@.len() == 0,
            a.spec_data().buffers@.len() == 1,
            a.spec_data().buffers@[0].start_pos() == 0,
            a.values_bytes().len() == ceil8(v@.len() as int),
            forall|i: int| 0 <= i < v@.len() ==> a.value_readable(i),
            forall|i: int| 0 <= i < v@.len() ==> a.value_spec(i) == v@[i],
            forall|j: int|
                v@.len() <= j && j / 8 < a.values_bytes().len() ==> !nth_bit(
                    a.values_bytes(),
                    j,
                ),
    {
        let n = v.len();
        let buf = pack_bools(&v);
        let data = ArrayData::builder(BooleanType::get_data_type()).len(n).add_buffer(
            Buffer::from_vec(buf),
        ).build();
        proof {
            assert((*data).buffers@.len() == 1);
            assert((*data).buffers@[0].start_pos() % BooleanType::align_spec() == 0);
        }
        match Self::from_data(data) {
            Ok(a) => a,
            Err(_) => vstd::pervasive::unreached(),
        }
    }

    /// Builds a boolean array from optional values: a bit-packed values
    /// buffer and a null bitmap of identical layout, one bit per element. A
    /// null slot's value bit stays clear, as do the bits past the last
    /// element, so the packed bytes are fixed entirely; only the bitmap
    /// signals nullity. Reading every index back reproduces the input
    /// exactly.
    pub fn from_opt_vec(v: Vec<Option<bool>>) -> (a: Self)
        ensures
            a.spec_data().data_type == DataType::Boolean,
            a.spec_data().len == v@.len(),
            a.spec_data().offset == 0,
            a.spec_data().null_count == count_nones(v@),
            a.spec_data().null_bitmap matches Some(b) && b@.len() == ceil8(v@.len() as int),
            a.spec_data().child_data@.len() == 0,
            a.spec_data().buffers@.len() == 1,
            a.spec_data().buffers@[0].start_pos() == 0,
            a.values_bytes().len() == ceil8(v@.len() as int),
            forall|i: int| 0 <= i < v@.len() ==> a.value_readable(i),
            forall|i: int| 0 <= i < v@.len() ==> a.spec_data().validity_readable(i),
            forall|i: int| 0 <= i < v@.len() ==> a.spec_data().valid_at(i) == (v@[i] is Some),
            forall|i: int| 0 <= i < v@.len() ==> a.logical_value(i) == v@[i],
            forall|i: int|
                #![trigger v@[i]]
                0 <= i < v@.len() ==> nth_bit(a.values_bytes(), i) == (v@[i] == Some(true)),
            forall|j: int|
                v@.len() <= j && j / 8 < a.values_bytes().len() ==> !nth_bit(
                    a.values_bytes(),
                    j,
                ),
    {
        let n = v.len();
        let nb = bit_bytes(n);
        let mut null_buf = zero_bytes(nb);
        let mut val_buf = zero_bytes(nb);
        let mut null_count: usize = 0;
        let mut i: usize = 0;
        while i < n
            invariant
                i <= n,
                null_buf@.len() == ceil8(n as int),
                val_buf@.len() == ceil8(n as int),
                null_count == count_nones(v@.subrange(0, i as int)),
                null_count <= i,
                forall|j: int| 0 <= j < i ==> nth_bit(null_buf@, j) == (v@[j] is Some),
                forall|j: int| i <= j && j / 8 < null_buf@.len() ==> !nth_bit(null_buf@, j),
                forall|j: int|
                    #![trigger v@[j]]
                    0 <= j < i ==> nth_bit(val_buf@, j) == (v@[j] == Some(true)),
                forall|j: int| i <= j && j / 8 < val_buf@.len() ==> !nth_bit(val_buf@, j),
            decreases n - i,
        {
            proof {
                assert(i as int / 8 < ceil8(n as int));
                assert(v@.subrange(0, i + 1).drop_last() =~= v@.subrange(0, i as int));
                assert(v@.subrange(0, i + 1).last() == v@[i as int]);
            }
            match v[i] {
                Some(x) => {
                    set_bit(&mut null_buf, i);
                    if x {
                        set_bit(&mut val_buf, i);
                    }
                },
                None => {
                    null_count = null_count + 1;
                },
            }
            i = i + 1;
        }
        proof {
            assert(v@.subrange(0, n as int) =~= v@);
        }
        let data = ArrayData::builder(BooleanType::get_data_type()).len(n).null_count(
            null_count,
        ).null_bit_buffer(Buffer::from_vec(null_buf)).add_buffer(Buffer::from_vec(val_buf)).build();
        proof {
            assert((*data).buffers@.len() == 1);
            assert((*data).buffers@[0].start_pos() % BooleanType::align_spec() == 0);
        }
        match Self::from_data(data) {
            Ok(a) => a,
            Err(_) => vstd::pervasive::unreached(),
        }
    }
}

/// The logical offset composes with indexing: a fixed-width array built with
/// container offset `o` reads at logical index `i` exactly what an
/// offset-zero view of the same values buffer reads at raw index `i + o`.
pub proof fn lemma_offset_composes<T: ArrowNumericType>(
    a: PrimitiveArray<T>,
    b: PrimitiveArray<T>,
    i: int,
)
    requires
        a.values_bytes() == b.values_bytes(),
        b.spec_data().offset == 0,
    ensures
        a.value_spec(i) == b.value_spec(i + a.spec_data().offset),
{
}

/// The logical offset composes with indexing for boolean bit reads exactly as
/// it does for the other fixed-width reads: logical bit `i` under offset `o`
/// is raw bit `i + o` of an offset-zero view of the same buffer.
pub proof fn lemma_offset_composes_boolean(
    a: PrimitiveArray<BooleanType>,
    b: PrimitiveArray<BooleanType>,
    i: int,
)
    requires
        a.values_bytes() == b.values_bytes(),
        b.spec_data().offset == 0,
    ensures
        a.value_spec(i) == b.value_spec(i + a.spec_data().offset),
{
}

/// Packs booleans eight to a byte, least-significant bit first; the bits past
/// the last element stay clear.
fn pack_bools(v: &Vec<bool>) -> (buf: Vec<u8>)
    ensures
        buf@.len() == ceil8(v@.len() as int),
        forall|i: int| 0 <= i < v@.len() ==> nth_bit(buf@, i) == v@[i],
        forall|j: int| v@.len() <= j && j / 8 < buf@.len() ==> !nth_bit(buf@, j),
{
    let n = v.len();
    let nb = bit_bytes(n);
    let mut buf = zero_bytes(nb);
    let mut i: usize = 0;
    while i < n
        invariant
            i <= n,
            buf@.len() == ceil8(n as int),
            forall|j: int| 0 <= j < i ==> nth_bit(buf@, j) == v@[j],
            forall|j: int| i <= j && j / 8 < buf@.len() ==> !nth_bit(buf@, j),
        decreases n - i,
    {
        proof {
            assert(i as int / 8 < ceil8(n as int));
        }
        if v[i] {
            set_bit(&mut buf, i);
        }
        i = i + 1;
    }
    buf
}

/// Encodes each value in order into one flat little-endian byte vector.
fn encode_values<T: ArrowNumericType>(v: &Vec<T::Native>) -> (buf: Vec<u8>)
    ensures
        buf@.len() == v@.len() * T::width_spec(),
        forall|j: int|
            0 <= j < v@.len() ==> buf@.subrange(j * T::width_spec(), (j + 1) * T::width_spec())
                == T::encode_spec(v@[j]),
{
    let w = T::width();
    let mut buf: Vec<u8> = Vec::new();
    let mut i: usize = 0;
    while i < v.len()
        invariant
            i <= v@.len(),
            buf@.len() == i * T::width_spec(),
            forall|j: int|
                #![trigger v@[j]]
                0 <= j < i ==> buf@.subrange(j * T::width_spec(), (j + 1) * T::width_spec())
                    == T::encode_spec(v@[j]),
        decreases v@.len() - i,
    {
        let ghost old_buf = buf@;
        T::write_le(v[i], &mut buf);
        proof {
            lemma_mul_bounds(i as int, T::width_spec() as int);
            assert forall|j: int| #![trigger v@[j]]
                0 <= j < i + 1 implies buf@.subrange(j * T::width_spec(), (j + 1) * T::width_spec())
                == T::encode_spec(v@[j]) by {
                if j < i {
                    lemma_mul_bounds(j, T::width_spec() as int);
                    lemma_mul_le(j + 1, i as int, T::width_spec() as int);
                    assert(buf@.subrange(j * T::width_spec(), (j + 1) * T::width_spec())
                        =~= old_buf.subrange(j * T::width_spec(), (j + 1) * T::width_spec()));
                } else {
                    assert(buf@.subrange(i as int * T::width_spec(), (i + 1) * T::width_spec())
                        =~= T::encode_spec(v@[i as int]));
                }
            }
        }
        i = i + 1;
    }
    buf
}

} // verus!
