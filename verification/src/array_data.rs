//! The untyped data container that every array view wraps: a type tag, a
//! logical length and offset, a null count, raw buffers, child containers for
//! the nested layouts, and an optional null bitmap. It is immutable once
//! built and shared by reference count among all views constructed from it.

use vstd::prelude::*;

use crate::bits::nth_bit;
use crate::buffer::Buffer;
use crate::datatypes::DataType;

verus! {

use std::sync::Arc;

pub type ArrayDataRef = Arc<ArrayData>;

#[derive(Debug, PartialEq)]
pub struct ArrayData {
    /// The logical type of the values this container holds.
    pub data_type: DataType,
    /// The number of elements visible through this container.
    pub len: usize,
    /// How many of the visible elements are null.
    pub null_count: usize,
    /// How many leading elements of the underlying buffers are hidden from
    /// this view; zero-copy slicing raises it.
    pub offset: usize,
    /// The raw buffers; how many there are is fixed by the type tag.
    pub buffers: Vec<Buffer>,
    /// The child containers of the nested layouts.
    pub child_data: Vec<ArrayDataRef>,
    /// One validity bit per element, least-significant bit first; absent when
    /// no element is null.
    pub null_bitmap: Option<Buffer>,
}

impl ArrayData {
    /// Whether element `i` is valid (not null): bit `i` of the null bitmap,
    /// or true when there is no bitmap.
    pub open spec fn valid_at(&self, i: int) -> bool {
        match self.null_bitmap {
            Some(b) => nth_bit(b@, i),
            None => true,
        }
    }

    /// Whether the null bitmap is wide enough to answer for element `i`.
    pub open spec fn validity_readable(&self, i: int) -> bool {
        match self.null_bitmap {
            Some(b) => 0 <= i && i / 8 < b@.len(),
            None => true,
        }
    }

    pub fn builder(data_type: DataType) -> (b: ArrayDataBuilder)
        ensures
            b.data_type == data_type,
            b.len == 0,
            b.null_count == 0,
            b.offset == 0,
            b.buffers@ == Seq::<Buffer>::empty(),
            b.child_data@ == Seq::<ArrayDataRef>::empty(),
            b.null_bitmap is None,
    {
        ArrayDataBuilder {
            data_type,
            len: 0,
            null_count: 0,
            offset: 0,
            buffers: Vec::new(),
            child_data: Vec::new(),
            null_bitmap: None,
        }
    }

    pub fn len(&self) -> (n: usize)
        ensures
            n == self.len,
    {
        self.len
    }

    pub fn offset(&self) -> (o: usize)
        ensures
            o == self.offset,
    {
        self.offset
    }

    pub fn null_count(&self) -> (n: usize)
        ensures
            n == self.null_count,
    {
        self.null_count
    }

    pub fn data_type(&self) -> (t: &DataType)
        ensures
            *t == self.data_type,
    {
        &self.data_type
    }

    pub fn buffers(&self) -> (b: &Vec<Buffer>)
        ensures
            *b == self.buffers,
    {
        &self.buffers
    }

    pub fn child_data(&self) -> (c: &Vec<ArrayDataRef>)
        ensures
            *c == self.child_data,
    {
        &self.child_data
    }

    pub fn null_bitmap(&self) -> (b: &Option<Buffer>)
        ensures
            *b == self.null_bitmap,
    {
        &self.null_bitmap
    }

    /// Whether element `i` is valid. Reads one bit of the null bitmap; the
    /// bitmap must reach index `i`.
    pub fn is_valid(&self, i: usize) -> (r: bool)
        requires
            self.validity_readable(i as int),
        ensures
            r == self.valid_at(i as int),
    {
        match &self.null_bitmap {
            Some(b) => b.bit(i),
            None => true,
        }
    }

    /// Whether element `i` is null: the negation of `is_valid`.
    pub fn is_null(&self, i: usize) -> (r: bool)
        requires
            self.validity_readable(i as int),
        ensures
            r == !self.valid_at(i as int),
    {
        !self.is_valid(i)
    }
}

/// Assembles a container from its parts, defaulting everything not set.
pub struct ArrayDataBuilder {
    pub data_type: DataType,
    pub len: usize,
    pub null_count: usize,
    pub offset: usize,
    pub buffers: Vec<Buffer>,
    pub child_data: Vec<ArrayDataRef>,
    pub null_bitmap: Option<Buffer>,
}

impl ArrayDataBuilder {
    pub fn len(self, n: usize) -> (r: Self)
        ensures
            r == (ArrayDataBuilder { len: n, ..self }),
    {
        ArrayDataBuilder { len: n, ..self }
    }

    pub fn null_count(self, n: usize) -> (r: Self)
        ensures
            r == (ArrayDataBuilder { null_count: n, ..self }),
    {
        ArrayDataBuilder { null_count: n, ..self }
    }

    pub fn offset(self, o: usize) -> (r: Self)
        ensures
            r == (ArrayDataBuilder { offset: o, ..self }),
    {
        ArrayDataBuilder { offset: o, ..self }
    }

    pub fn add_buffer(self, b: Buffer) -> (r: Self)
        ensures
            r.buffers@ == self.buffers@.push(b),
            r.data_type == self.data_type,
            r.len == self.len,
            r.null_count == self.null_count,
            r.offset == self.offset,
            r.child_data == self.child_data,
            r.null_bitmap == self.null_bitmap,
    {
        let mut buffers = self.buffers;
        buffers.push(b);
        ArrayDataBuilder { buffers, ..self }
    }

    pub fn add_child_data(self, c: ArrayDataRef) -> (r: Self)
        ensures
            r.child_data@ == self.child_data@.push(c),
            r.data_type == self.data_type,
            r.len == self.len,
            r.null_count == self.null_count,
            r.offset == self.offset,
            r.buffers == self.buffers,
            r.null_bitmap == self.null_bitmap,
    {
        let mut child_data = self.child_data;
        child_data.push(c);
        ArrayDataBuilder { child_data, ..self }
    }

    pub fn child_data(self, c: Vec<ArrayDataRef>) -> (r: Self)
        ensures
            r == (ArrayDataBuilder { child_data: c, ..self }),
    {
        ArrayDataBuilder { child_data: c, ..self }
    }

    pub fn null_bit_buffer(self, b: Buffer) -> (r: Self)
        ensures
            r.null_bitmap == Some(b),
            r.data_type == self.data_type,
            r.len == self.len,
            r.null_count == self.null_count,
            r.offset == self.offset,
            r.buffers == self.buffers,
            r.child_data == self.child_data,
    {
        ArrayDataBuilder { null_bitmap: Some(b), ..self }
    }

    pub fn build(self) -> (r: ArrayDataRef)
        ensures
            *r == (ArrayData {
                data_type: self.data_type,
                len: self.len,
                null_count: self.null_count,
                offset: self.offset,
                buffers: self.buffers,
                child_data: self.child_data,
                null_bitmap: self.null_bitmap,
            }),
    {
        Arc::new(
            ArrayData {
                data_type: self.data_type,
                len: self.len,
                null_count: self.null_count,
                offset: self.offset,
                buffers: self.buffers,
                child_data: self.child_data,
                null_bitmap: self.null_bitmap,
            },
        )
    }
}

} // verus!
