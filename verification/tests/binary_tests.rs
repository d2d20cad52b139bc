use arrow::array::Array;
use arrow::array_data::ArrayData;
use arrow::binary::BinaryArray;
use arrow::buffer::Buffer;
use arrow::datatypes::DataType;
use arrow::error::ArrowError;
use arrow::list::ListArray;

fn i32_bytes(values: &[i32]) -> Vec<u8> {
    let mut out = Vec::new();
    for v in values {
        out.extend_from_slice(&v.to_le_bytes());
    }
    out
}

fn u32_bytes(values: &[u32]) -> Vec<u8> {
    let mut out = Vec::new();
    for v in values {
        out.extend_from_slice(&v.to_le_bytes());
    }
    out
}

#[test]
fn test_binary_array() {
    let values: [u8; 12] = [
        b'h', b'e', b'l', b'l', b'o', b'p', b'a', b'r', b'q', b'u', b'e', b't',
    ];
    let offsets: [i32; 4] = [0, 5, 5, 12];

    // Array data: ["hello", "", "parquet"]
    let array_data = ArrayData::builder(DataType::Utf8)
        .len(3)
        .add_buffer(Buffer::from_vec(i32_bytes(&offsets)))
        .add_buffer(Buffer::from_vec(values.to_vec()))
        .build();
    let binary_array = BinaryArray::from_data(array_data).unwrap();
    assert_eq!(3, binary_array.len());
    assert_eq!(0, binary_array.null_count());
    assert_eq!(b"hello".to_vec(), binary_array.value(0).unwrap());
    assert_eq!("hello", binary_array.get_string(0).unwrap());
    assert_eq!(Vec::<u8>::new(), binary_array.value(1).unwrap());
    assert_eq!("", binary_array.get_string(1).unwrap());
    assert_eq!(b"parquet".to_vec(), binary_array.value(2).unwrap());
    assert_eq!("parquet", binary_array.get_string(2).unwrap());
    assert_eq!(5, binary_array.value_offset(2));
    assert_eq!(7, binary_array.value_length(2));
    for i in 0..3 {
        assert!(binary_array.is_valid(i));
        assert!(!binary_array.is_null(i));
    }

    // Test a binary array with a logical offset
    let array_data = ArrayData::builder(DataType::Utf8)
        .len(4)
        .offset(1)
        .add_buffer(Buffer::from_vec(i32_bytes(&offsets)))
        .add_buffer(Buffer::from_vec(values.to_vec()))
        .build();
    let binary_array = BinaryArray::from_data(array_data).unwrap();
    assert_eq!(b"parquet".to_vec(), binary_array.value(1).unwrap());
    assert_eq!("parquet", binary_array.get_string(1).unwrap());
    assert_eq!(5, binary_array.value_offset(0));
    assert_eq!(0, binary_array.value_length(0));
    assert_eq!(5, binary_array.value_offset(1));
    assert_eq!(7, binary_array.value_length(1));
}

#[test]
fn test_binary_array_from_list_array() {
    let values: [u8; 12] = [
        b'h', b'e', b'l', b'l', b'o', b'p', b'a', b'r', b'q', b'u', b'e', b't',
    ];
    let values_data = ArrayData::builder(DataType::UInt8)
        .len(12)
        .add_buffer(Buffer::from_vec(values.to_vec()))
        .build();
    let offsets: [i32; 4] = [0, 5, 5, 12];

    // Array data: ["hello", "", "parquet"]
    let array_data1 = ArrayData::builder(DataType::Utf8)
        .len(3)
        .add_buffer(Buffer::from_vec(i32_bytes(&offsets)))
        .add_buffer(Buffer::from_vec(values.to_vec()))
        .build();
    let binary_array1 = BinaryArray::from_data(array_data1).unwrap();

    let array_data2 = ArrayData::builder(DataType::Utf8)
        .len(3)
        .add_buffer(Buffer::from_vec(i32_bytes(&offsets)))
        .add_child_data(values_data)
        .build();
    let list_array = ListArray::from_data(array_data2).unwrap();
    let binary_array2 = BinaryArray::from_list(list_array).unwrap();

    assert_eq!(2, binary_array2.data().buffers().len());
    assert_eq!(0, binary_array2.data().child_data().len());

    assert_eq!(binary_array1.len(), binary_array2.len());
    assert_eq!(binary_array1.null_count(), binary_array2.null_count());
    for i in 0..binary_array1.len() {
        assert_eq!(binary_array1.value(i).unwrap(), binary_array2.value(i).unwrap());
        assert_eq!(binary_array1.get_string(i).unwrap(), binary_array2.get_string(i).unwrap());
        assert_eq!(binary_array1.value_offset(i), binary_array2.value_offset(i));
        assert_eq!(binary_array1.value_length(i), binary_array2.value_length(i));
    }
}

#[test]
fn test_binary_array_from_u8_slice() {
    let values: Vec<&[u8]> = vec![
        &[b'h', b'e', b'l', b'l', b'o'],
        &[],
        &[b'p', b'a', b'r', b'q', b'u', b'e', b't'],
    ];

    // Array data: ["hello", "", "parquet"]
    let binary_array = BinaryArray::from_byte_slices(values);

    assert_eq!(3, binary_array.len());
    assert_eq!(0, binary_array.null_count());
    assert_eq!(b"hello".to_vec(), binary_array.value(0).unwrap());
    assert_eq!("hello", binary_array.get_string(0).unwrap());
    assert_eq!(Vec::<u8>::new(), binary_array.value(1).unwrap());
    assert_eq!("", binary_array.get_string(1).unwrap());
    assert_eq!(b"parquet".to_vec(), binary_array.value(2).unwrap());
    assert_eq!("parquet", binary_array.get_string(2).unwrap());
    assert_eq!(5, binary_array.value_offset(2));
    assert_eq!(7, binary_array.value_length(2));
    for i in 0..3 {
        assert!(binary_array.is_valid(i));
        assert!(!binary_array.is_null(i));
    }
}

#[test]
fn test_binary_array_from_strs() {
    let binary_array = BinaryArray::from_strs(vec!["hello", "", "parquet"]);
    assert_eq!(3, binary_array.len());
    assert_eq!("hello", binary_array.get_string(0).unwrap());
    assert_eq!("", binary_array.get_string(1).unwrap());
    assert_eq!("parquet", binary_array.get_string(2).unwrap());
    assert_eq!(0, binary_array.value_offset(0));
    assert_eq!(5, binary_array.value_offset(2));
    assert_eq!(7, binary_array.value_length(2));
}

#[test]
fn test_binary_array_from_incorrect_list_array_type() {
    let values: [u32; 12] = [0, 1, 2, 3, 4, 5, 6, 7, 8, 9, 10, 11];
    let values_data = ArrayData::builder(DataType::UInt32)
        .len(12)
        .add_buffer(Buffer::from_vec(u32_bytes(&values)))
        .build();
    let offsets: [i32; 4] = [0, 5, 5, 12];

    let array_data = ArrayData::builder(DataType::Utf8)
        .len(3)
        .add_buffer(Buffer::from_vec(i32_bytes(&offsets)))
        .add_child_data(values_data)
        .build();
    let list_array = ListArray::from_data(array_data).unwrap();
    let r = BinaryArray::from_list(list_array);
    assert_eq!(r.unwrap_err(), ArrowError::ListChildTypeMismatch);
}

#[test]
fn test_binary_array_from_incorrect_list_array() {
    let values: [u32; 12] = [0, 1, 2, 3, 4, 5, 6, 7, 8, 9, 10, 11];
    let values_data = ArrayData::builder(DataType::UInt32)
        .len(12)
        .add_buffer(Buffer::from_vec(u32_bytes(&values)))
        .add_child_data(ArrayData::builder(DataType::Boolean).build())
        .build();
    let offsets: [i32; 4] = [0, 5, 5, 12];

    let array_data = ArrayData::builder(DataType::Utf8)
        .len(3)
        .add_buffer(Buffer::from_vec(i32_bytes(&offsets)))
        .add_child_data(values_data)
        .build();
    let list_array = ListArray::from_data(array_data).unwrap();
    let r = BinaryArray::from_list(list_array);
    assert_eq!(r.unwrap_err(), ArrowError::NestedListChild);
}

#[test]
fn test_binary_array_get_value_index_out_of_bound() {
    let values: [u8; 12] = [
        b'h', b'e', b'l', b'l', b'o', b'p', b'a', b'r', b'q', b'u', b'e', b't',
    ];
    let offsets: [i32; 4] = [0, 5, 5, 12];
    let array_data = ArrayData::builder(DataType::Utf8)
        .len(3)
        .add_buffer(Buffer::from_vec(i32_bytes(&offsets)))
        .add_buffer(Buffer::from_vec(values.to_vec()))
        .build();
    let binary_array = BinaryArray::from_data(array_data).unwrap();
    let r = binary_array.value(4);
    assert_eq!(r.unwrap_err(), ArrowError::OutOfBounds);
}

#[test]
fn test_binary_array_alignment() {
    let buf = Buffer::from_vec(vec![0u8; 8]);
    let buf2 = buf.slice(1);

    let values: [u8; 12] = [0; 12];

    let array_data = ArrayData::builder(DataType::Utf8)
        .add_buffer(buf2)
        .add_buffer(Buffer::from_vec(values.to_vec()))
        .build();
    let r = BinaryArray::from_data(array_data);
    assert_eq!(r.unwrap_err(), ArrowError::UnalignedBuffer);
}
