//! The struct layout: a row-group of named, independently typed column
//! arrays sharing one logical index space. Construction from a container
//! rebuilds one child array per child container through the factory — the
//! main recursive entry point for nested schemas. The length is not stored
//! independently: it is the first field's length, on the deliberate trust
//! that all fields are equal-length, which only construction from named
//! columns enforces.

use vstd::prelude::*;

use crate::arc_clone;
use crate::array::{container_len, factory_ok, make_array, models, AnyArray, Array, ArrayRef};
use crate::array_data::{ArrayData, ArrayDataRef};
use crate::datatypes::{DataType, Field};
use crate::error::ArrowError;

verus! {

broadcast use vstd::seq::axiom_seq_index_decreases, vstd::std_specs::vec::axiom_vec_decreases_to_view, vstd::std_specs::vec::axiom_vec_index_decreases;

/// A nested array where each child (called a field) is its own array.
#[derive(Debug)]
pub struct StructArray {
    data: ArrayDataRef,
    boxed_fields: Vec<ArrayRef>,
}

impl StructArray {
    #[verifier::type_invariant]
    spec fn wf(self) -> bool {
        &&& self.boxed_fields@.len() == self.data.child_data@.len()
        &&& forall|k: int|
            0 <= k < self.boxed_fields@.len() ==> models(
                *self.boxed_fields@[k],
                *self.data.child_data@[k],
            )
    }

    /// The field array at position `k`.
    pub closed spec fn spec_column(&self, k: int) -> AnyArray {
        *self.boxed_fields@[k]
    }

    /// A struct array's length is its first field's length, zero with no
    /// fields; it is not stored independently.
    pub closed spec fn fields_len(&self) -> nat
        decreases self,
        via Self::fields_len_decreases
    {
        if self.boxed_fields@.len() == 0 {
            0
        } else {
            (*self.boxed_fields@[0]).any_len()
        }
    }

    #[via_fn]
    proof fn fields_len_decreases(&self) {
        if self.boxed_fields@.len() != 0 {
            assert(decreases_to!(*self => self.boxed_fields));
            assert(decreases_to!(self.boxed_fields => self.boxed_fields@[0]));
        }
    }

    /// Wraps a data container as a struct array, rebuilding one field per
    /// child container through the factory. Fatal exactly when some child
    /// fails to reconstruct; the container itself is not validated further.
    pub fn from_data(data: ArrayDataRef) -> (r: Result<Self, ArrowError>)
        ensures
            r is Ok <==> (forall|k: int|
                0 <= k < (*data).child_data@.len() ==> factory_ok(*(*data).child_data@[k])),
            r matches Ok(a) ==> a.spec_data() == *data,
            r matches Ok(a) ==> forall|k: int|
                0 <= k < (*data).child_data@.len() ==> models(
                    a.spec_column(k),
                    *(*data).child_data@[k],
                ),
            r matches Ok(a) ==> a.fields_len() == (if (*data).child_data@.len() == 0 {
                0nat
            } else {
                container_len(*(*data).child_data@[0])
            }),
        decreases *data, 0int,
    {
        let n = data.child_data().len();
        let mut boxed_fields: Vec<ArrayRef> = Vec::new();
        let mut i: usize = 0;
        while i < n
            invariant
                i <= n,
                n == (*data).child_data@.len(),
                boxed_fields@.len() == i as int,
                forall|k: int|
                    0 <= k < i ==> models(*boxed_fields@[k], *(*data).child_data@[k]),
                forall|k: int| 0 <= k < i ==> factory_ok(*(*data).child_data@[k]),
                forall|k: int|
                    0 <= k < i ==> (*boxed_fields@[k]).any_len() == container_len(
                        *(*data).child_data@[k],
                    ),
            decreases n - i,
        {
            proof {
                assert(decreases_to!(*data => (*data).child_data));
                assert(decreases_to!((*data).child_data => (*data).child_data@[i as int]));
            }
            match make_array(&data.child_data()[i]) {
                Ok(a) => {
                    boxed_fields.push(a);
                },
                Err(e) => {
                    return Err(e);
                },
            }
            i = i + 1;
        }
        Ok(StructArray { data, boxed_fields })
    }

    /// Builds a struct array from named columns: the container's type tag is
    /// a struct of the given fields, the columns become the child containers,
    /// and the fields are rebuilt through the factory. Fatal when the columns
    /// do not all share the first column's length, or when a column's
    /// container fails to reconstruct.
    pub fn from_columns(v: Vec<(Field, ArrayRef)>) -> (r: Result<Self, ArrowError>)
        requires
            v@.len() > 0,
        ensures
            (exists|k: int|
                #![trigger v@[k]]
                0 <= k < v@.len() && (*v@[k].1).spec_len() != (*v@[0].1).spec_len()) ==> r
                == Err::<Self, ArrowError>(ArrowError::StructFieldLengthMismatch),
            r is Ok <==> ((forall|k: int|
                #![trigger v@[k]]
                0 <= k < v@.len() ==> (*v@[k].1).spec_len() == (*v@[0].1).spec_len()) && (forall|
                k: int,
            |
                #![trigger v@[k]]
                0 <= k < v@.len() ==> factory_ok((*v@[k].1).spec_data()))),
            r matches Ok(a) ==> {
                &&& a.spec_data().data_type matches DataType::Struct(f) && f@.len() == v@.len()
                    && (forall|k: int|
                    #![trigger f@[k]]
                    0 <= k < v@.len() ==> crate::datatypes::field_eq(f@[k], v@[k].0))
                &&& a.spec_data().child_data@.len() == v@.len()
                &&& forall|k: int|
                    #![trigger v@[k]]
                    0 <= k < v@.len() ==> *a.spec_data().child_data@[k] == (*v@[k].1).spec_data()
                &&& forall|k: int|
                    0 <= k < v@.len() ==> models(a.spec_column(k), *a.spec_data().child_data@[k])
                &&& a.spec_len() == container_len((*v@[0].1).spec_data())
                &&& a.spec_data().len == 0
                &&& a.spec_data().offset == 0
                &&& a.spec_data().null_count == 0
            },
    {
        let n = v.len();
        let first: &AnyArray = &v[0].1;
        let first_len = first.len();
        let mut field_types: Vec<Field> = Vec::new();
        let mut child_data: Vec<ArrayDataRef> = Vec::new();
        let mut i: usize = 0;
        while i < n
            invariant
                i <= n,
                n == v@.len(),
                v@.len() > 0,
                first_len == (*v@[0].1).spec_len(),
                field_types@.len() == i as int,
                child_data@.len() == i as int,
                forall|k: int|
                    #![trigger field_types@[k]]
                    0 <= k < i ==> crate::datatypes::field_eq(field_types@[k], v@[k].0),
                forall|k: int|
                    #![trigger child_data@[k]]
                    0 <= k < i ==> *child_data@[k] == (*v@[k].1).spec_data(),
                forall|k: int|
                    #![trigger v@[k]]
                    0 <= k < i ==> (*v@[k].1).spec_len() == (*v@[0].1).spec_len(),
            decreases n - i,
        {
            let col: &AnyArray = &v[i].1;
            if col.len() != first_len {
                return Err(ArrowError::StructFieldLengthMismatch);
            }
            field_types.push(v[i].0.clone());
            child_data.push(col.data());
            i = i + 1;
        }
        let data = ArrayData::builder(DataType::Struct(field_types)).child_data(child_data).build();
        let r = Self::from_data(data);
        proof {
            assert((*data).child_data@.len() == v@.len());
            assert forall|k: int|
                #![trigger v@[k]]
                #![trigger (*data).child_data@[k]]
                0 <= k < v@.len() implies factory_ok(*(*data).child_data@[k]) == factory_ok(
                (*v@[k].1).spec_data(),
            ) by {
                assert(*(*data).child_data@[k] == (*v@[k].1).spec_data());
            }
        }
        r
    }

    /// The field array at position `pos`; `pos` must name a field.
    pub fn column(&self, pos: usize) -> (r: &ArrayRef)
        requires
            pos < self.spec_data().child_data@.len(),
        ensures
            **r == self.spec_column(pos as int),
    {
        proof {
            use_type_invariant(self);
        }
        &self.boxed_fields[pos]
    }

    /// The length of this struct array: its first field's length, zero when
    /// it has no fields.
    pub fn len(&self) -> (n: usize)
        ensures
            n == self.fields_len(),
            self.spec_data().child_data@.len() == 0 ==> n == 0,
            self.spec_data().child_data@.len() > 0 ==> n == self.spec_column(0).any_len(),
        decreases *self, 0int,
    {
        proof {
            use_type_invariant(self);
        }
        if self.boxed_fields.len() == 0 {
            0
        } else {
            let f: &AnyArray = &self.boxed_fields[0];
            proof {
                assert(decreases_to!(*self => self.boxed_fields));
                assert(decreases_to!(self.boxed_fields => self.boxed_fields@[0]));
            }
            crate::array::any_array_len(f)
        }
    }
}

impl Array for StructArray {
    closed spec fn spec_data(&self) -> ArrayData {
        *self.data
    }

    open spec fn spec_len(&self) -> nat {
        self.fields_len()
    }

    fn data(&self) -> (d: ArrayDataRef) {
        arc_clone(&self.data)
    }

    fn data_ref(&self) -> (d: &ArrayDataRef) {
        &self.data
    }

    fn data_type(&self) -> (t: &DataType) {
        self.data.data_type()
    }

    fn len(&self) -> (n: usize) {
        StructArray::len(self)
    }

    fn offset(&self) -> (o: usize) {
        self.data.offset()
    }

    fn null_count(&self) -> (n: usize) {
        self.data.null_count()
    }

    fn is_null(&self, i: usize) -> (r: bool) {
        self.data.is_null(i)
    }

    fn is_valid(&self, i: usize) -> (r: bool) {
        self.data.is_valid(i)
    }
}

} // verus!
