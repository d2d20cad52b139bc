use arrow::array::{make_array, AnyArray, Array};
use arrow::array_data::ArrayData;
use arrow::buffer::Buffer;
use arrow::datatypes::{DataType, Field, TimeUnit};
use arrow::error::ArrowError;

fn i32_bytes(values: &[i32]) -> Vec<u8> {
    let mut out = Vec::new();
    for v in values {
        out.extend_from_slice(&v.to_le_bytes());
    }
    out
}

#[test]
fn test_make_array_boolean() {
    let data = ArrayData::builder(DataType::Boolean)
        .len(3)
        .add_buffer(Buffer::from_vec(vec![5u8]))
        .build();
    let arr = make_array(&data).unwrap();
    assert!(matches!(&*arr, AnyArray::Boolean(_)));
    assert_eq!(3, arr.len());
    assert_eq!(0, arr.offset());
    assert_eq!(0, arr.null_count());
    if let AnyArray::Boolean(b) = &*arr {
        assert!(b.value(0));
        assert!(!b.value(1));
        assert!(b.value(2));
    }
}

#[test]
fn test_make_array_int32() {
    let data = ArrayData::builder(DataType::Int32)
        .len(4)
        .offset(1)
        .null_count(0)
        .add_buffer(Buffer::from_vec(i32_bytes(&[9, 8, 7, 6, 5])))
        .build();
    let arr = make_array(&data).unwrap();
    assert!(matches!(&*arr, AnyArray::Int32(_)));
    assert_eq!(4, arr.len());
    assert_eq!(1, arr.offset());
    assert_eq!(0, arr.null_count());
    if let AnyArray::Int32(a) = &*arr {
        assert_eq!(8, a.value(0));
        assert_eq!(5, a.value(3));
    }
}

#[test]
fn test_make_array_utf8() {
    let values = b"helloparquet".to_vec();
    let data = ArrayData::builder(DataType::Utf8)
        .len(3)
        .add_buffer(Buffer::from_vec(i32_bytes(&[0, 5, 5, 12])))
        .add_buffer(Buffer::from_vec(values))
        .build();
    let arr = make_array(&data).unwrap();
    assert!(matches!(&*arr, AnyArray::Binary(_)));
    assert_eq!(3, arr.len());
    if let AnyArray::Binary(b) = &*arr {
        assert_eq!("hello", b.get_string(0).unwrap());
    }
}

#[test]
fn test_make_array_list_and_struct() {
    let child = ArrayData::builder(DataType::Int32)
        .len(3)
        .add_buffer(Buffer::from_vec(i32_bytes(&[1, 2, 3])))
        .build();
    let list_data = ArrayData::builder(DataType::List(Box::new(DataType::Int32)))
        .len(2)
        .add_buffer(Buffer::from_vec(i32_bytes(&[0, 1, 3])))
        .add_child_data(child.clone())
        .build();
    let arr = make_array(&list_data).unwrap();
    assert!(matches!(&*arr, AnyArray::List(_)));
    assert_eq!(2, arr.len());

    let struct_data = ArrayData::builder(DataType::Struct(vec![Field::new(
        "x",
        DataType::Int32,
        false,
    )]))
    .add_child_data(child)
    .build();
    let arr = make_array(&struct_data).unwrap();
    assert!(matches!(&*arr, AnyArray::Struct(_)));
    // a struct array's length is its first field's length
    assert_eq!(3, arr.len());
}

#[test]
fn test_make_array_unsupported_type() {
    let data = ArrayData::builder(DataType::Timestamp(TimeUnit::Second)).len(0).build();
    let r = make_array(&data);
    assert_eq!(r.unwrap_err(), ArrowError::UnsupportedDataType);
}

#[test]
fn test_make_array_rejects_invalid_child() {
    // The list itself is well-formed, but its child has no values buffer
    let child = ArrayData::builder(DataType::Int32).len(0).build();
    let list_data = ArrayData::builder(DataType::List(Box::new(DataType::Int32)))
        .len(0)
        .add_buffer(Buffer::from_vec(i32_bytes(&[0])))
        .add_child_data(child)
        .build();
    let r = make_array(&list_data);
    assert_eq!(r.unwrap_err(), ArrowError::BufferCountMismatch);
}
