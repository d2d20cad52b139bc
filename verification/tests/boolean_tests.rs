use arrow::array::Array;
use arrow::array_data::ArrayData;
use arrow::buffer::Buffer;
use arrow::datatypes::DataType;
use arrow::error::ArrowError;
use arrow::primitive::BooleanArray;

#[test]
fn test_boolean_array_new() {
    // 00000010 01001000
    let buf = Buffer::from_vec(vec![72u8, 2u8]);
    let buf2 = buf.clone();
    let arr = BooleanArray::new(10, buf, 0, 0).unwrap();
    assert_eq!(buf2, arr.values());
    assert_eq!(10, arr.len());
    assert_eq!(0, arr.offset());
    assert_eq!(0, arr.null_count());
    for i in 0..10 {
        assert!(!arr.is_null(i));
        assert!(arr.is_valid(i));
        assert_eq!(i == 3 || i == 6 || i == 9, arr.value(i), "failed at {}", i)
    }
}

#[test]
fn test_boolean_array_from_vec() {
    let buf = Buffer::from_vec(vec![10u8]);
    let arr = BooleanArray::from_vec(vec![false, true, false, true]);
    assert_eq!(buf, arr.values());
    assert_eq!(4, arr.len());
    assert_eq!(0, arr.offset());
    assert_eq!(0, arr.null_count());
    for i in 0..4 {
        assert!(!arr.is_null(i));
        assert!(arr.is_valid(i));
        assert_eq!(i == 1 || i == 3, arr.value(i), "failed at {}", i)
    }
}

#[test]
fn test_boolean_array_from_vec_option() {
    let buf = Buffer::from_vec(vec![10u8]);
    let arr = BooleanArray::from_opt_vec(vec![Some(false), Some(true), None, Some(true)]);
    assert_eq!(buf, arr.values());
    assert_eq!(4, arr.len());
    assert_eq!(0, arr.offset());
    assert_eq!(1, arr.null_count());
    for i in 0..4 {
        if i == 2 {
            assert!(arr.is_null(i));
            assert!(!arr.is_valid(i));
        } else {
            assert!(!arr.is_null(i));
            assert!(arr.is_valid(i));
            assert_eq!(i == 1 || i == 3, arr.value(i), "failed at {}", i)
        }
    }
}

#[test]
fn test_boolean_array_builder() {
    // Build a boolean array with a data container made by the builder, with a
    // logical offset
    // 000011011
    let buf = Buffer::from_vec(vec![27u8]);
    let buf2 = buf.clone();
    let data = ArrayData::builder(DataType::Boolean).len(5).offset(2).add_buffer(buf).build();
    let arr = BooleanArray::from_data(data).unwrap();
    assert_eq!(buf2, arr.values());
    assert_eq!(5, arr.len());
    assert_eq!(2, arr.offset());
    assert_eq!(0, arr.null_count());
    for i in 0..3 {
        assert_eq!(i != 0, arr.value(i), "failed at {}", i);
    }
}

#[test]
fn test_boolean_array_invalid_buffer_len() {
    let data = ArrayData::builder(DataType::Boolean).len(5).build();
    let r = BooleanArray::from_data(data);
    assert_eq!(r.unwrap_err(), ArrowError::BufferCountMismatch);
}
