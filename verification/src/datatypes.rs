//! The logical type system the arrays are tagged with: the type tag enum with
//! its recursive list and struct cases, the named field of a struct, and the
//! native-type traits that tie a fixed-width element type to its tag, byte
//! width, alignment, and little-endian encoding.

use vstd::prelude::*;

use crate::buffer::Buffer;

verus! {

broadcast use vstd::std_specs::vec::axiom_vec_index_decreases;

#[derive(Debug, PartialEq)]
pub enum TimeUnit {
    Second,
    Millisecond,
    Microsecond,
    Nanosecond,
}

#[derive(Debug, PartialEq)]
pub enum DateUnit {
    Day,
    Millisecond,
}

#[derive(Debug, PartialEq)]
pub enum IntervalUnit {
    YearMonth,
    DayTime,
}

/// The logical type of an array: a tag, recursive for the nested layouts.
#[derive(Debug, PartialEq)]
pub enum DataType {
    Boolean,
    Int8,
    Int16,
    Int32,
    Int64,
    UInt8,
    UInt16,
    UInt32,
    UInt64,
    Float32,
    Float64,
    Utf8,
    List(Box<DataType>),
    Struct(Vec<Field>),
    Timestamp(TimeUnit),
    Date32(DateUnit),
    Date64(DateUnit),
    Time32(TimeUnit),
    Time64(TimeUnit),
    Interval(IntervalUnit),
}

/// A named, typed column of a struct layout.
#[derive(Debug, PartialEq)]
pub struct Field {
    pub name: String,
    pub data_type: DataType,
    pub nullable: bool,
}

/// Structural equality on type tags. `Vec` and `String` values are abstract
/// to the verifier, so reconstructing a tag cannot be proved `==` to the
/// original; this spec compares what the values hold instead.
pub open spec fn dt_eq(a: DataType, b: DataType) -> bool
    decreases a,
{
    match (a, b) {
        (DataType::List(x), DataType::List(y)) => dt_eq(*x, *y),
        (DataType::Struct(f), DataType::Struct(g)) => {
            &&& f@.len() == g@.len()
            &&& forall|i: int| 0 <= i < f@.len() ==> field_eq(#[trigger] f@[i], g@[i])
        },
        _ => a == b,
    }
}

/// Structural equality on struct fields: same name, type, and nullability.
pub open spec fn field_eq(a: Field, b: Field) -> bool
    decreases a,
{
    a.name@ == b.name@ && dt_eq(a.data_type, b.data_type) && a.nullable == b.nullable
}

impl Field {
    pub fn new(name: &str, data_type: DataType, nullable: bool) -> (f: Field)
        ensures
            f.name@ == name@,
            f.data_type == data_type,
            f.nullable == nullable,
    {
        Field { name: name.to_owned(), data_type, nullable }
    }
}

impl Clone for DataType {
    /// A deep copy, structurally equal to the original.
    fn clone(&self) -> (r: Self)
        ensures
            dt_eq(r, *self),
    {
        clone_data_type(self)
    }
}

impl Clone for Field {
    /// A deep copy, structurally equal to the original.
    fn clone(&self) -> (r: Self)
        ensures
            field_eq(r, *self),
    {
        Field {
            name: self.name.clone(),
            data_type: clone_data_type(&self.data_type),
            nullable: self.nullable,
        }
    }
}

fn clone_data_type(t: &DataType) -> (r: DataType)
    ensures
        dt_eq(r, *t),
    decreases *t,
{
    match t {
        DataType::Boolean => DataType::Boolean,
        DataType::Int8 => DataType::Int8,
        DataType::Int16 => DataType::Int16,
        DataType::Int32 => DataType::Int32,
        DataType::Int64 => DataType::Int64,
        DataType::UInt8 => DataType::UInt8,
        DataType::UInt16 => DataType::UInt16,
        DataType::UInt32 => DataType::UInt32,
        DataType::UInt64 => DataType::UInt64,
        DataType::Float32 => DataType::Float32,
        DataType::Float64 => DataType::Float64,
        DataType::Utf8 => DataType::Utf8,
        DataType::List(inner) => DataType::List(Box::new(clone_data_type(inner))),
        DataType::Struct(fields) => {
            let mut out: Vec<Field> = Vec::new();
            let mut i: usize = 0;
            while i < fields.len()
                invariant
                    i <= fields@.len(),
                    out@.len() == i as int,
                    forall|j: int| 0 <= j < i ==> field_eq(#[trigger] out@[j], fields@[j]),
                decreases fields@.len() - i,
            {
                let f = &fields[i];
                let c = Field {
                    name: f.name.clone(),
                    data_type: clone_data_type(&f.data_type),
                    nullable: f.nullable,
                };
                out.push(c);
                i = i + 1;
            }
            DataType::Struct(out)
        },
        DataType::Timestamp(u) => DataType::Timestamp(clone_time_unit(u)),
        DataType::Date32(u) => DataType::Date32(clone_date_unit(u)),
        DataType::Date64(u) => DataType::Date64(clone_date_unit(u)),
        DataType::Time32(u) => DataType::Time32(clone_time_unit(u)),
        DataType::Time64(u) => DataType::Time64(clone_time_unit(u)),
        DataType::Interval(u) => DataType::Interval(
            match u {
                IntervalUnit::YearMonth => IntervalUnit::YearMonth,
                IntervalUnit::DayTime => IntervalUnit::DayTime,
            },
        ),
    }
}

fn clone_time_unit(u: &TimeUnit) -> (r: TimeUnit)
    ensures
        r == *u,
{
    match u {
        TimeUnit::Second => TimeUnit::Second,
        TimeUnit::Millisecond => TimeUnit::Millisecond,
        TimeUnit::Microsecond => TimeUnit::Microsecond,
        TimeUnit::Nanosecond => TimeUnit::Nanosecond,
    }
}

fn clone_date_unit(u: &DateUnit) -> (r: DateUnit)
    ensures
        r == *u,
{
    match u {
        DateUnit::Day => DateUnit::Day,
        DateUnit::Millisecond => DateUnit::Millisecond,
    }
}

} // verus!
