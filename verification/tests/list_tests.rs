use arrow::array::Array;
use arrow::array_data::ArrayData;
use arrow::buffer::Buffer;
use arrow::datatypes::DataType;
use arrow::error::ArrowError;
use arrow::list::ListArray;

fn i32_bytes(values: &[i32]) -> Vec<u8> {
    let mut out = Vec::new();
    for v in values {
        out.extend_from_slice(&v.to_le_bytes());
    }
    out
}

#[test]
fn test_list_array() {
    // Construct a value array
    let value_data = ArrayData::builder(DataType::Int32)
        .len(8)
        .add_buffer(Buffer::from_vec(i32_bytes(&[0, 1, 2, 3, 4, 5, 6, 7])))
        .build();

    // Construct a buffer of value offsets, for the nested array:
    //  [[0, 1, 2], [3, 4, 5], [6, 7]]
    let value_offsets = Buffer::from_vec(i32_bytes(&[0, 3, 6, 8]));

    // Construct a list array from the above two
    let list_data_type = DataType::List(Box::new(DataType::Int32));
    let list_data = ArrayData::builder(list_data_type.clone())
        .len(3)
        .add_buffer(value_offsets.clone())
        .add_child_data(value_data.clone())
        .build();
    let list_array = ListArray::from_data(list_data).unwrap();

    let values = list_array.values();
    assert_eq!(value_data, values.data());
    assert_eq!(DataType::Int32, list_array.value_type());
    assert_eq!(3, list_array.len());
    assert_eq!(0, list_array.null_count());
    assert_eq!(6, list_array.value_offset(2));
    assert_eq!(2, list_array.value_length(2));
    for i in 0..3 {
        assert!(list_array.is_valid(i));
        assert!(!list_array.is_null(i));
    }

    // Now test with a non-zero offset
    let list_data = ArrayData::builder(list_data_type)
        .len(3)
        .offset(1)
        .add_buffer(value_offsets)
        .add_child_data(value_data.clone())
        .build();
    let list_array = ListArray::from_data(list_data).unwrap();

    let values = list_array.values();
    assert_eq!(value_data, values.data());
    assert_eq!(DataType::Int32, list_array.value_type());
    assert_eq!(3, list_array.len());
    assert_eq!(0, list_array.null_count());
    assert_eq!(6, list_array.value_offset(1));
    assert_eq!(2, list_array.value_length(1));
}

#[test]
fn test_list_array_invalid_buffer_len() {
    let value_data = ArrayData::builder(DataType::Int32)
        .len(8)
        .add_buffer(Buffer::from_vec(i32_bytes(&[0, 1, 2, 3, 4, 5, 6, 7])))
        .build();
    let list_data_type = DataType::List(Box::new(DataType::Int32));
    let list_data = ArrayData::builder(list_data_type).len(3).add_child_data(value_data).build();
    let r = ListArray::from_data(list_data);
    assert_eq!(r.unwrap_err(), ArrowError::BufferCountMismatch);
}

#[test]
fn test_list_array_invalid_child_array_len() {
    let value_offsets = Buffer::from_vec(i32_bytes(&[0, 2, 5, 7]));
    let list_data_type = DataType::List(Box::new(DataType::Int32));
    let list_data = ArrayData::builder(list_data_type).len(3).add_buffer(value_offsets).build();
    let r = ListArray::from_data(list_data);
    assert_eq!(r.unwrap_err(), ArrowError::ChildCountMismatch);
}

#[test]
fn test_list_array_invalid_value_offset_start() {
    let value_data = ArrayData::builder(DataType::Int32)
        .len(8)
        .add_buffer(Buffer::from_vec(i32_bytes(&[0, 1, 2, 3, 4, 5, 6, 7])))
        .build();

    // The offsets do not start at zero
    let value_offsets = Buffer::from_vec(i32_bytes(&[2, 2, 5, 7]));

    let list_data_type = DataType::List(Box::new(DataType::Int32));
    let list_data = ArrayData::builder(list_data_type)
        .len(3)
        .add_buffer(value_offsets)
        .add_child_data(value_data)
        .build();
    let r = ListArray::from_data(list_data);
    assert_eq!(r.unwrap_err(), ArrowError::OffsetsNotStartingAtZero);
}

#[test]
fn test_list_array_invalid_value_offset_end() {
    let value_data = ArrayData::builder(DataType::Int32)
        .len(8)
        .add_buffer(Buffer::from_vec(i32_bytes(&[0, 1, 2, 3, 4, 5, 6, 7])))
        .build();

    // The final offset is 7, but the child array holds 8 values
    let value_offsets = Buffer::from_vec(i32_bytes(&[0, 2, 5, 7]));

    let list_data_type = DataType::List(Box::new(DataType::Int32));
    let list_data = ArrayData::builder(list_data_type)
        .len(3)
        .add_buffer(value_offsets)
        .add_child_data(value_data)
        .build();
    let r = ListArray::from_data(list_data);
    assert_eq!(r.unwrap_err(), ArrowError::InconsistentOffsets);
}

#[test]
fn test_list_array_alignment() {
    let buf = Buffer::from_vec(vec![0u8; 8]);
    let buf2 = buf.slice(1);

    let value_data = ArrayData::builder(DataType::Int32)
        .add_buffer(Buffer::from_vec(i32_bytes(&[0; 8])))
        .build();

    let list_data_type = DataType::List(Box::new(DataType::Int32));
    let list_data = ArrayData::builder(list_data_type)
        .add_buffer(buf2)
        .add_child_data(value_data)
        .build();
    let r = ListArray::from_data(list_data);
    assert_eq!(r.unwrap_err(), ArrowError::UnalignedBuffer);
}

#[test]
fn test_list_array_short_offsets_buffer() {
    let value_data = ArrayData::builder(DataType::Int32)
        .len(8)
        .add_buffer(Buffer::from_vec(i32_bytes(&[0, 1, 2, 3, 4, 5, 6, 7])))
        .build();
    // Three logical elements need four offsets; two are given
    let value_offsets = Buffer::from_vec(i32_bytes(&[0, 8]));
    let list_data_type = DataType::List(Box::new(DataType::Int32));
    let list_data = ArrayData::builder(list_data_type)
        .len(3)
        .add_buffer(value_offsets)
        .add_child_data(value_data)
        .build();
    let r = ListArray::from_data(list_data);
    assert_eq!(r.unwrap_err(), ArrowError::ShortOffsetsBuffer);
}
