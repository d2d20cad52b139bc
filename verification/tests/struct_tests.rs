use std::sync::Arc;

use arrow::array::{AnyArray, Array, ArrayRef};
use arrow::array_data::ArrayData;
use arrow::buffer::Buffer;
use arrow::datatypes::{DataType, Field};
use arrow::error::ArrowError;
use arrow::primitive::{BooleanArray, Float32Array, Float64Array, Int32Array, Int64Array};
use arrow::struct_array::StructArray;

fn i32_bytes(values: &[i32]) -> Vec<u8> {
    let mut out = Vec::new();
    for v in values {
        out.extend_from_slice(&v.to_le_bytes());
    }
    out
}

fn i64_bytes(values: &[i64]) -> Vec<u8> {
    let mut out = Vec::new();
    for v in values {
        out.extend_from_slice(&v.to_le_bytes());
    }
    out
}

#[test]
fn test_struct_array_builder() {
    let boolean_data = ArrayData::builder(DataType::Boolean)
        .len(4)
        .add_buffer(Buffer::from_vec(vec![0u8, 0, 1, 1]))
        .build();
    let int_data = ArrayData::builder(DataType::Int64)
        .len(4)
        .add_buffer(Buffer::from_vec(i64_bytes(&[42, 28, 19, 31])))
        .build();
    let mut field_types = vec![];
    field_types.push(Field::new("a", DataType::Boolean, false));
    field_types.push(Field::new("b", DataType::Int64, false));
    let struct_array_data = ArrayData::builder(DataType::Struct(field_types))
        .add_child_data(boolean_data.clone())
        .add_child_data(int_data.clone())
        .build();
    let struct_array = StructArray::from_data(struct_array_data).unwrap();

    assert_eq!(boolean_data, struct_array.column(0).data());
    assert_eq!(int_data, struct_array.column(1).data());
}

#[test]
fn test_struct_array_from() {
    let boolean_data = ArrayData::builder(DataType::Boolean)
        .len(4)
        .add_buffer(Buffer::from_vec(vec![12u8]))
        .build();
    let int_data = ArrayData::builder(DataType::Int32)
        .len(4)
        .add_buffer(Buffer::from_vec(i32_bytes(&[42, 28, 19, 31])))
        .build();
    let struct_array = StructArray::from_columns(vec![
        (
            Field::new("b", DataType::Boolean, false),
            Arc::new(AnyArray::Boolean(BooleanArray::from_vec(vec![false, false, true, true])))
                as ArrayRef,
        ),
        (
            Field::new("c", DataType::Int32, false),
            Arc::new(AnyArray::Int32(Int32Array::from_vec(vec![42, 28, 19, 31]))),
        ),
    ])
    .unwrap();
    assert_eq!(boolean_data, struct_array.column(0).data());
    assert_eq!(int_data, struct_array.column(1).data());
}

#[test]
fn test_invalid_struct_child_array_lengths() {
    let r = StructArray::from_columns(vec![
        (
            Field::new("b", DataType::Float32, false),
            Arc::new(AnyArray::Float32(Float32Array::from_vec(vec![1.1f32.to_bits()])))
                as ArrayRef,
        ),
        (
            Field::new("c", DataType::Float64, false),
            Arc::new(AnyArray::Float64(Float64Array::from_vec(vec![
                2.2f64.to_bits(),
                3.3f64.to_bits(),
            ]))),
        ),
    ]);
    assert_eq!(r.unwrap_err(), ArrowError::StructFieldLengthMismatch);
}

#[test]
fn test_struct_array_len_is_first_field_len() {
    let struct_array = StructArray::from_columns(vec![
        (
            Field::new("a", DataType::Int64, false),
            Arc::new(AnyArray::Int64(Int64Array::from_vec(vec![5, 6, 7]))) as ArrayRef,
        ),
        (
            Field::new("b", DataType::Int32, false),
            Arc::new(AnyArray::Int32(Int32Array::from_vec(vec![1, 2, 3]))),
        ),
    ])
    .unwrap();
    assert_eq!(3, struct_array.len());
    assert_eq!(0, struct_array.offset());
}
