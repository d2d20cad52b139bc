use arrow::array::Array;
use arrow::array_data::ArrayData;
use arrow::buffer::Buffer;
use arrow::datatypes::DataType;
use arrow::error::ArrowError;
use arrow::primitive::Int32Array;

fn i32_bytes(values: &[i32]) -> Vec<u8> {
    let mut out = Vec::new();
    for v in values {
        out.extend_from_slice(&v.to_le_bytes());
    }
    out
}

#[test]
fn test_primitive_array_from_vec() {
    let buf = Buffer::from_vec(i32_bytes(&[0, 1, 2, 3, 4]));
    let buf2 = buf.clone();
    let arr = Int32Array::new(5, buf, 0, 0).unwrap();
    let slice = arr.raw_values();
    assert_eq!(buf2, arr.values());
    assert_eq!(vec![0, 1, 2, 3, 4], slice);
    assert_eq!(5, arr.len());
    assert_eq!(0, arr.offset());
    assert_eq!(0, arr.null_count());
    for i in 0..5 {
        assert!(!arr.is_null(i));
        assert!(arr.is_valid(i));
        assert_eq!(i as i32, arr.value(i));
    }
}

#[test]
fn test_primitive_array_from_vec_option() {
    // Build a primitive array with null values
    let arr = Int32Array::from_opt_vec(vec![Some(0), None, Some(2), None, Some(4)]);
    assert_eq!(5, arr.len());
    assert_eq!(0, arr.offset());
    assert_eq!(2, arr.null_count());
    for i in 0..5 {
        if i % 2 == 0 {
            assert!(!arr.is_null(i));
            assert!(arr.is_valid(i));
            assert_eq!(i as i32, arr.value(i));
        } else {
            assert!(arr.is_null(i));
            assert!(!arr.is_valid(i));
        }
    }
}

#[test]
fn test_primitive_array_builder() {
    // Build a primitive array with a data container made by the builder, with
    // a logical offset
    let buf = Buffer::from_vec(i32_bytes(&[0, 1, 2, 3, 4]));
    let buf2 = buf.clone();
    let data = ArrayData::builder(DataType::Int32).len(5).offset(2).add_buffer(buf).build();
    let arr = Int32Array::from_data(data).unwrap();
    assert_eq!(buf2, arr.values());
    assert_eq!(5, arr.len());
    assert_eq!(0, arr.null_count());
    for i in 0..3 {
        assert_eq!((i + 2) as i32, arr.value(i));
    }
}

#[test]
fn test_primitive_array_invalid_buffer_len() {
    let data = ArrayData::builder(DataType::Int32).len(5).build();
    let r = Int32Array::from_data(data);
    assert_eq!(r.unwrap_err(), ArrowError::BufferCountMismatch);
}

#[test]
fn test_primitive_array_alignment() {
    let buf = Buffer::from_vec(vec![0u8; 8]);
    let buf2 = buf.slice(1);
    let array_data = ArrayData::builder(DataType::Int32).add_buffer(buf2).build();
    let r = Int32Array::from_data(array_data);
    assert_eq!(r.unwrap_err(), ArrowError::UnalignedBuffer);
}

#[test]
fn test_value_slice_exact() {
    let arr = Int32Array::from_vec(vec![2, 3, 4]);
    let slice = arr.value_slice(1, 2);
    assert_eq!(vec![3, 4], slice);
}

#[test]
fn test_raw_values_with_offset() {
    let data = ArrayData::builder(DataType::Int32)
        .len(3)
        .offset(2)
        .add_buffer(Buffer::from_vec(i32_bytes(&[0, 1, 2, 3, 4])))
        .build();
    let arr = Int32Array::from_data(data).unwrap();
    assert_eq!(vec![2, 3, 4], arr.raw_values());
}

#[test]
fn test_primitive_array_new_rejects_misaligned() {
    let buf = Buffer::from_vec(vec![0u8; 12]).slice(2);
    let r = Int32Array::new(2, buf, 0, 0);
    assert_eq!(r.unwrap_err(), ArrowError::UnalignedBuffer);
}
