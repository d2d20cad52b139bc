//! The polymorphic face of the library: the trait every concrete layout
//! implements, the closed sum of the concrete layouts, and the factory that
//! reconstructs a concrete array from an untyped data container by its type
//! tag — the single chokepoint that all nested construction passes through.

use vstd::prelude::*;

use crate::arc_clone;
use crate::array_data::{ArrayData, ArrayDataRef};
use crate::binary::BinaryArray;
use crate::datatypes::DataType;
use crate::error::ArrowError;
use crate::list::ListArray;
use crate::native::{
    BooleanType, Float32Type, Float64Type, Int16Type, Int32Type, Int64Type, Int8Type, UInt16Type,
    UInt32Type, UInt64Type, UInt8Type,
};
use crate::offsets::offset_value;
use crate::primitive::PrimitiveArray;
use crate::struct_array::StructArray;

verus! {

use std::sync::Arc;

/// What any array can answer, whatever its concrete layout: its data
/// container, its logical type, length, offset, null count, and per-element
/// validity.
pub trait Array {
    /// The value of the wrapped data container.
    spec fn spec_data(&self) -> ArrayData;

    /// The array's logical length. Every layout reports its container's
    /// length except the struct layout, which derives it from its first
    /// field rather than storing it independently.
    spec fn spec_len(&self) -> nat;

    /// The wrapped container, as a fresh reference-counted handle.
    fn data(&self) -> (d: ArrayDataRef)
        ensures
            *d == self.spec_data(),
    ;

    /// The wrapped container, borrowed.
    fn data_ref(&self) -> (d: &ArrayDataRef)
        ensures
            **d == self.spec_data(),
    ;

    /// The logical type of this array's elements.
    fn data_type(&self) -> (t: &DataType)
        ensures
            *t == self.spec_data().data_type,
    ;

    /// The number of elements in this array.
    fn len(&self) -> (n: usize)
        ensures
            n == self.spec_len(),
    ;

    /// How many leading elements of the underlying buffers this view hides.
    fn offset(&self) -> (o: usize)
        ensures
            o == self.spec_data().offset,
    ;

    /// How many elements of this array are null.
    fn null_count(&self) -> (n: usize)
        ensures
            n == self.spec_data().null_count,
    ;

    /// Whether element `i` is null: bit `i` of the container's null bitmap,
    /// read unchecked against the logical length.
    fn is_null(&self, i: usize) -> (r: bool)
        requires
            self.spec_data().validity_readable(i as int),
        ensures
            r == !self.spec_data().valid_at(i as int),
    ;

    /// Whether element `i` is valid (not null).
    fn is_valid(&self, i: usize) -> (r: bool)
        requires
            self.spec_data().validity_readable(i as int),
        ensures
            r == self.spec_data().valid_at(i as int),
    ;
}

/// One array of any concrete layout: the closed sum the factory dispatches
/// into. Closing the set of layouts makes an unsupported type tag impossible
/// anywhere past the factory, which alone decodes externally supplied tags.
#[derive(Debug)]
pub enum AnyArray {
    Boolean(PrimitiveArray<BooleanType>),
    Int8(PrimitiveArray<Int8Type>),
    Int16(PrimitiveArray<Int16Type>),
    Int32(PrimitiveArray<Int32Type>),
    Int64(PrimitiveArray<Int64Type>),
    UInt8(PrimitiveArray<UInt8Type>),
    UInt16(PrimitiveArray<UInt16Type>),
    UInt32(PrimitiveArray<UInt32Type>),
    UInt64(PrimitiveArray<UInt64Type>),
    Float32(PrimitiveArray<Float32Type>),
    Float64(PrimitiveArray<Float64Type>),
    Binary(BinaryArray),
    List(ListArray),
    Struct(StructArray),
}

pub type ArrayRef = Arc<AnyArray>;

impl AnyArray {
    /// This array's logical length: the container's length, except that a
    /// struct array answers with its first field's length, recursively.
    pub open spec fn any_len(&self) -> nat
        decreases self,
    {
        match self {
            AnyArray::Boolean(a) => a.spec_data().len as nat,
            AnyArray::Int8(a) => a.spec_data().len as nat,
            AnyArray::Int16(a) => a.spec_data().len as nat,
            AnyArray::Int32(a) => a.spec_data().len as nat,
            AnyArray::Int64(a) => a.spec_data().len as nat,
            AnyArray::UInt8(a) => a.spec_data().len as nat,
            AnyArray::UInt16(a) => a.spec_data().len as nat,
            AnyArray::UInt32(a) => a.spec_data().len as nat,
            AnyArray::UInt64(a) => a.spec_data().len as nat,
            AnyArray::Float32(a) => a.spec_data().len as nat,
            AnyArray::Float64(a) => a.spec_data().len as nat,
            AnyArray::Binary(a) => a.spec_data().len as nat,
            AnyArray::List(a) => a.spec_data().len as nat,
            AnyArray::Struct(a) => a.fields_len(),
        }
    }
}

/// Whether array `a` is what the factory builds from container `d`: the
/// concrete layout matches the type tag, and the array wraps that very
/// container.
pub open spec fn models(a: AnyArray, d: ArrayData) -> bool {
    &&& a.spec_data() == d
    &&& match d.data_type {
        DataType::Boolean => a is Boolean,
        DataType::Int8 => a is Int8,
        DataType::Int16 => a is Int16,
        DataType::Int32 => a is Int32,
        DataType::Int64 => a is Int64,
        DataType::UInt8 => a is UInt8,
        DataType::UInt16 => a is UInt16,
        DataType::UInt32 => a is UInt32,
        DataType::UInt64 => a is UInt64,
        DataType::Float32 => a is Float32,
        DataType::Float64 => a is Float64,
        DataType::Utf8 => a is Binary,
        DataType::List(_) => a is List,
        DataType::Struct(_) => a is Struct,
        _ => false,
    }
}

/// The shape a fixed-width container must have: one values buffer, aligned.
pub open spec fn prim_shape(d: ArrayData, align: nat) -> bool {
    d.buffers@.len() == 1 && d.buffers@[0].start_pos() % align == 0
}

/// The shape a binary/text container must have: an offsets buffer (4-byte
/// aligned) and a payload buffer.
pub open spec fn binary_shape(d: ArrayData) -> bool {
    d.buffers@.len() == 2 && d.buffers@[0].start_pos() % 4 == 0
}

/// The shape a list container must have: one offsets buffer (4-byte aligned,
/// holding `length + 1` offsets), one child, the first offset zero, and the
/// offset at the logical length equal to the child's length.
pub open spec fn list_shape(d: ArrayData) -> bool {
    &&& d.buffers@.len() == 1
    &&& d.child_data@.len() == 1
    &&& d.buffers@[0].start_pos() % 4 == 0
    &&& 4 * (d.len + 1) <= d.buffers@[0]@.len()
    &&& offset_value(d.buffers@[0]@, 0) == 0
    &&& offset_value(d.buffers@[0]@, d.len as int) == ((*d.child_data@[0]).len as i32)
}

/// Whether the factory accepts container `d`: its tag is a supported one and
/// the container tree under it has the shape the tag's layout validates.
pub open spec fn factory_ok(d: ArrayData) -> bool
    decreases d,
{
    match d.data_type {
        DataType::Boolean => prim_shape(d, 1),
        DataType::Int8 => prim_shape(d, 1),
        DataType::UInt8 => prim_shape(d, 1),
        DataType::Int16 => prim_shape(d, 2),
        DataType::UInt16 => prim_shape(d, 2),
        DataType::Int32 => prim_shape(d, 4),
        DataType::UInt32 => prim_shape(d, 4),
        DataType::Float32 => prim_shape(d, 4),
        DataType::Int64 => prim_shape(d, 8),
        DataType::UInt64 => prim_shape(d, 8),
        DataType::Float64 => prim_shape(d, 8),
        DataType::Utf8 => binary_shape(d),
        DataType::List(_) => list_shape(d) && factory_ok(*d.child_data@[0]),
        DataType::Struct(_) => children_ok(d.child_data@),
        _ => false,
    }
}

/// The logical length the factory's result reports for container `d`: the
/// container's own length, except under a struct tag, where it is the first
/// child's, recursively — a struct array derives its length rather than
/// storing it.
pub open spec fn container_len(d: ArrayData) -> nat
    decreases d,
    via container_len_decreases
{
    if d.data_type is Struct {
        if d.child_data@.len() == 0 {
            0
        } else {
            container_len(*d.child_data@[0])
        }
    } else {
        d.len as nat
    }
}

#[via_fn]
proof fn container_len_decreases(d: ArrayData) {
    broadcast use vstd::std_specs::vec::axiom_vec_index_decreases;

    if d.data_type is Struct && d.child_data@.len() != 0 {
        assert(decreases_to!(d => d.child_data));
        assert(decreases_to!(d.child_data => d.child_data@[0]));
    }
}

/// Whether every container in the sequence satisfies `factory_ok`.
pub open spec fn children_ok(s: Seq<ArrayDataRef>) -> bool
    decreases s,
{
    s.len() == 0 || (factory_ok(*s[0]) && children_ok(s.drop_first()))
}

pub proof fn lemma_children_ok_index(s: Seq<ArrayDataRef>)
    ensures
        children_ok(s) <==> (forall|k: int| 0 <= k < s.len() ==> factory_ok(*s[k])),
    decreases s.len(),
{
    if s.len() > 0 {
        lemma_children_ok_index(s.drop_first());
        assert(forall|k: int| 0 <= k < s.drop_first().len() ==> s.drop_first()[k] == s[k + 1]);
        if children_ok(s) {
            assert forall|k: int| 0 <= k < s.len() implies factory_ok(*s[k]) by {
                if k > 0 {
                    assert(factory_ok(*s.drop_first()[k - 1]));
                }
            }
        } else {
            if forall|k: int| 0 <= k < s.len() ==> factory_ok(*s[k]) {
                assert forall|k: int| 0 <= k < s.drop_first().len() implies factory_ok(
                    *s.drop_first()[k],
                ) by {
                    assert(factory_ok(*s[k + 1]));
                }
                assert(factory_ok(*s[0]));
                assert(false);
            }
        }
    }
}

/// The runtime type-dispatch factory: reconstructs the concrete array a data
/// container's type tag calls for, recursing through the nested layouts'
/// children. A tag this layer has no layout for is fatal, never silently
/// tolerated; so is any shape violation a concrete constructor finds.
pub fn make_array(data: &ArrayDataRef) -> (r: Result<ArrayRef, ArrowError>)
    ensures
        r is Ok <==> factory_ok(**data),
        r matches Ok(a) ==> models(*a, **data),
        r matches Ok(a) ==> (*a).any_len() == container_len(**data),
        !((**data).data_type is Boolean || (**data).data_type is Int8 || (**data).data_type
            is Int16 || (**data).data_type is Int32 || (**data).data_type is Int64
            || (**data).data_type is UInt8 || (**data).data_type is UInt16 || (**data).data_type
            is UInt32 || (**data).data_type is UInt64 || (**data).data_type is Float32
            || (**data).data_type is Float64 || (**data).data_type is Utf8 || (**data).data_type
            is List || (**data).data_type is Struct) ==> r == Err::<ArrayRef, ArrowError>(
            ArrowError::UnsupportedDataType,
        ),
    decreases **data, 1int,
{
    match data.data_type() {
        DataType::Boolean => match PrimitiveArray::<BooleanType>::from_data(arc_clone(data)) {
            Ok(a) => Ok(Arc::new(AnyArray::Boolean(a))),
            Err(e) => Err(e),
        },
        DataType::Int8 => match PrimitiveArray::<Int8Type>::from_data(arc_clone(data)) {
            Ok(a) => Ok(Arc::new(AnyArray::Int8(a))),
            Err(e) => Err(e),
        },
        DataType::Int16 => match PrimitiveArray::<Int16Type>::from_data(arc_clone(data)) {
            Ok(a) => Ok(Arc::new(AnyArray::Int16(a))),
            Err(e) => Err(e),
        },
        DataType::Int32 => match PrimitiveArray::<Int32Type>::from_data(arc_clone(data)) {
            Ok(a) => Ok(Arc::new(AnyArray::Int32(a))),
            Err(e) => Err(e),
        },
        DataType::Int64 => match PrimitiveArray::<Int64Type>::from_data(arc_clone(data)) {
            Ok(a) => Ok(Arc::new(AnyArray::Int64(a))),
            Err(e) => Err(e),
        },
        DataType::UInt8 => match PrimitiveArray::<UInt8Type>::from_data(arc_clone(data)) {
            Ok(a) => Ok(Arc::new(AnyArray::UInt8(a))),
            Err(e) => Err(e),
        },
        DataType::UInt16 => match PrimitiveArray::<UInt16Type>::from_data(arc_clone(data)) {
            Ok(a) => Ok(Arc::new(AnyArray::UInt16(a))),
            Err(e) => Err(e),
        },
        DataType::UInt32 => match PrimitiveArray::<UInt32Type>::from_data(arc_clone(data)) {
            Ok(a) => Ok(Arc::new(AnyArray::UInt32(a))),
            Err(e) => Err(e),
        },
        DataType::UInt64 => match PrimitiveArray::<UInt64Type>::from_data(arc_clone(data)) {
            Ok(a) => Ok(Arc::new(AnyArray::UInt64(a))),
            Err(e) => Err(e),
        },
        DataType::Float32 => match PrimitiveArray::<Float32Type>::from_data(arc_clone(data)) {
            Ok(a) => Ok(Arc::new(AnyArray::Float32(a))),
            Err(e) => Err(e),
        },
        DataType::Float64 => match PrimitiveArray::<Float64Type>::from_data(arc_clone(data)) {
            Ok(a) => Ok(Arc::new(AnyArray::Float64(a))),
            Err(e) => Err(e),
        },
        DataType::Utf8 => match BinaryArray::from_data(arc_clone(data)) {
            Ok(a) => Ok(Arc::new(AnyArray::Binary(a))),
            Err(e) => Err(e),
        },
        DataType::List(_) => match ListArray::from_data(arc_clone(data)) {
            Ok(a) => Ok(Arc::new(AnyArray::List(a))),
            Err(e) => Err(e),
        },
        DataType::Struct(_) => match StructArray::from_data(arc_clone(data)) {
            Ok(a) => {
                proof {
                    lemma_children_ok_index((**data).child_data@);
                }
                Ok(Arc::new(AnyArray::Struct(a)))
            },
            Err(e) => {
                proof {
                    lemma_children_ok_index((**data).child_data@);
                }
                Err(e)
            },
        },
        _ => Err(ArrowError::UnsupportedDataType),
    }
}

/// The logical length of an array of any layout: the container's length,
/// except that a struct array answers with its first field's length,
/// descending recursively through nested structs.
pub fn any_array_len(a: &AnyArray) -> (n: usize)
    ensures
        n == a.any_len(),
    decreases *a, 1int,
{
    match a {
        AnyArray::Boolean(p) => p.len(),
        AnyArray::Int8(p) => p.len(),
        AnyArray::Int16(p) => p.len(),
        AnyArray::Int32(p) => p.len(),
        AnyArray::Int64(p) => p.len(),
        AnyArray::UInt8(p) => p.len(),
        AnyArray::UInt16(p) => p.len(),
        AnyArray::UInt32(p) => p.len(),
        AnyArray::UInt64(p) => p.len(),
        AnyArray::Float32(p) => p.len(),
        AnyArray::Float64(p) => p.len(),
        AnyArray::Binary(b) => b.len(),
        AnyArray::List(l) => l.len(),
        AnyArray::Struct(s) => {
            proof {
                assert(*a == AnyArray::Struct(*s));
                assert(decreases_to!(AnyArray::Struct(*s) => *s));
            }
            s.len()
        },
    }
}

/// Factory dispatch hands back an array whose layout matches the tag and
/// whose offset and null count are the originating container's; its length is
/// the container's too, except for the struct layout, whose length is its
/// first field's.
pub proof fn lemma_factory_dispatch(a: AnyArray, d: ArrayData)
    requires
        models(a, d),
    ensures
        a.spec_data() == d,
        a.spec_data().offset == d.offset,
        a.spec_data().null_count == d.null_count,
        d.data_type is Boolean ==> a is Boolean,
        d.data_type is Int8 ==> a is Int8,
        d.data_type is Int16 ==> a is Int16,
        d.data_type is Int32 ==> a is Int32,
        d.data_type is Int64 ==> a is Int64,
        d.data_type is UInt8 ==> a is UInt8,
        d.data_type is UInt16 ==> a is UInt16,
        d.data_type is UInt32 ==> a is UInt32,
        d.data_type is UInt64 ==> a is UInt64,
        d.data_type is Float32 ==> a is Float32,
        d.data_type is Float64 ==> a is Float64,
        d.data_type is Utf8 ==> a is Binary,
        d.data_type is List ==> a is List,
        d.data_type is Struct ==> a is Struct,
        !(d.data_type is Struct) ==> a.spec_len() == d.len,
{
}

impl Array for AnyArray {
    open spec fn spec_data(&self) -> ArrayData {
        match self {
            AnyArray::Boolean(a) => a.spec_data(),
            AnyArray::Int8(a) => a.spec_data(),
            AnyArray::Int16(a) => a.spec_data(),
            AnyArray::Int32(a) => a.spec_data(),
            AnyArray::Int64(a) => a.spec_data(),
            AnyArray::UInt8(a) => a.spec_data(),
            AnyArray::UInt16(a) => a.spec_data(),
            AnyArray::UInt32(a) => a.spec_data(),
            AnyArray::UInt64(a) => a.spec_data(),
            AnyArray::Float32(a) => a.spec_data(),
            AnyArray::Float64(a) => a.spec_data(),
            AnyArray::Binary(a) => a.spec_data(),
            AnyArray::List(a) => a.spec_data(),
            AnyArray::Struct(a) => a.spec_data(),
        }
    }

    open spec fn spec_len(&self) -> nat {
        self.any_len()
    }

    fn data(&self) -> (d: ArrayDataRef) {
        match self {
            AnyArray::Boolean(a) => a.data(),
            AnyArray::Int8(a) => a.data(),
            AnyArray::Int16(a) => a.data(),
            AnyArray::Int32(a) => a.data(),
            AnyArray::Int64(a) => a.data(),
            AnyArray::UInt8(a) => a.data(),
            AnyArray::UInt16(a) => a.data(),
            AnyArray::UInt32(a) => a.data(),
            AnyArray::UInt64(a) => a.data(),
            AnyArray::Float32(a) => a.data(),
            AnyArray::Float64(a) => a.data(),
            AnyArray::Binary(a) => a.data(),
            AnyArray::List(a) => a.data(),
            AnyArray::Struct(a) => a.data(),
        }
    }

    fn data_ref(&self) -> (d: &ArrayDataRef) {
        match self {
            AnyArray::Boolean(a) => a.data_ref(),
            AnyArray::Int8(a) => a.data_ref(),
            AnyArray::Int16(a) => a.data_ref(),
            AnyArray::Int32(a) => a.data_ref(),
            AnyArray::Int64(a) => a.data_ref(),
            AnyArray::UInt8(a) => a.data_ref(),
            AnyArray::UInt16(a) => a.data_ref(),
            AnyArray::UInt32(a) => a.data_ref(),
            AnyArray::UInt64(a) => a.data_ref(),
            AnyArray::Float32(a) => a.data_ref(),
            AnyArray::Float64(a) => a.data_ref(),
            AnyArray::Binary(a) => a.data_ref(),
            AnyArray::List(a) => a.data_ref(),
            AnyArray::Struct(a) => a.data_ref(),
        }
    }

    fn data_type(&self) -> (t: &DataType) {
        match self {
            AnyArray::Boolean(a) => a.data_type(),
            AnyArray::Int8(a) => a.data_type(),
            AnyArray::Int16(a) => a.data_type(),
            AnyArray::Int32(a) => a.data_type(),
            AnyArray::Int64(a) => a.data_type(),
            AnyArray::UInt8(a) => a.data_type(),
            AnyArray::UInt16(a) => a.data_type(),
            AnyArray::UInt32(a) => a.data_type(),
            AnyArray::UInt64(a) => a.data_type(),
            AnyArray::Float32(a) => a.data_type(),
            AnyArray::Float64(a) => a.data_type(),
            AnyArray::Binary(a) => a.data_type(),
            AnyArray::List(a) => a.data_type(),
            AnyArray::Struct(a) => a.data_type(),
        }
    }

    fn len(&self) -> (n: usize) {
        any_array_len(self)
    }

    fn offset(&self) -> (o: usize) {
        match self {
            AnyArray::Boolean(a) => a.offset(),
            AnyArray::Int8(a) => a.offset(),
            AnyArray::Int16(a) => a.offset(),
            AnyArray::Int32(a) => a.offset(),
            AnyArray::Int64(a) => a.offset(),
            AnyArray::UInt8(a) => a.offset(),
            AnyArray::UInt16(a) => a.offset(),
            AnyArray::UInt32(a) => a.offset(),
            AnyArray::UInt64(a) => a.offset(),
            AnyArray::Float32(a) => a.offset(),
            AnyArray::Float64(a) => a.offset(),
            AnyArray::Binary(a) => a.offset(),
            AnyArray::List(a) => a.offset(),
            AnyArray::Struct(a) => a.offset(),
        }
    }

    fn null_count(&self) -> (n: usize) {
        match self {
            AnyArray::Boolean(a) => a.null_count(),
            AnyArray::Int8(a) => a.null_count(),
            AnyArray::Int16(a) => a.null_count(),
            AnyArray::Int32(a) => a.null_count(),
            AnyArray::Int64(a) => a.null_count(),
            AnyArray::UInt8(a) => a.null_count(),
            AnyArray::UInt16(a) => a.null_count(),
            AnyArray::UInt32(a) => a.null_count(),
            AnyArray::UInt64(a) => a.null_count(),
            AnyArray::Float32(a) => a.null_count(),
            AnyArray::Float64(a) => a.null_count(),
            AnyArray::Binary(a) => a.null_count(),
            AnyArray::List(a) => a.null_count(),
            AnyArray::Struct(a) => a.null_count(),
        }
    }

    fn is_null(&self, i: usize) -> (r: bool) {
        match self {
            AnyArray::Boolean(a) => a.is_null(i),
            AnyArray::Int8(a) => a.is_null(i),
            AnyArray::Int16(a) => a.is_null(i),
            AnyArray::Int32(a) => a.is_null(i),
            AnyArray::Int64(a) => a.is_null(i),
            AnyArray::UInt8(a) => a.is_null(i),
            AnyArray::UInt16(a) => a.is_null(i),
            AnyArray::UInt32(a) => a.is_null(i),
            AnyArray::UInt64(a) => a.is_null(i),
            AnyArray::Float32(a) => a.is_null(i),
            AnyArray::Float64(a) => a.is_null(i),
            AnyArray::Binary(a) => a.is_null(i),
            AnyArray::List(a) => a.is_null(i),
            AnyArray::Struct(a) => a.is_null(i),
        }
    }

    fn is_valid(&self, i: usize) -> (r: bool) {
        match self {
            AnyArray::Boolean(a) => a.is_valid(i),
            AnyArray::Int8(a) => a.is_valid(i),
            AnyArray::Int16(a) => a.is_valid(i),
            AnyArray::Int32(a) => a.is_valid(i),
            AnyArray::Int64(a) => a.is_valid(i),
            AnyArray::UInt8(a) => a.is_valid(i),
            AnyArray::UInt16(a) => a.is_valid(i),
            AnyArray::UInt32(a) => a.is_valid(i),
            AnyArray::UInt64(a) => a.is_valid(i),
            AnyArray::Float32(a) => a.is_valid(i),
            AnyArray::Float64(a) => a.is_valid(i),
            AnyArray::Binary(a) => a.is_valid(i),
            AnyArray::List(a) => a.is_valid(i),
            AnyArray::Struct(a) => a.is_valid(i),
        }
    }
}

} // verus!
