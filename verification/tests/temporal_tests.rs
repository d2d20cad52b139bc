use arrow::array::Array;
use arrow::primitive::{
    Date32Array, Date64Array, Time32MillisecondArray, Time64NanosecondArray,
    TimestampSecondArray,
};

#[test]
#[allow(deprecated)]
fn test_date64_array_from_vec_option() {
    // Build a temporal array with null values
    let arr = Date64Array::from_opt_vec(vec![Some(1550902545147), None, Some(1550902545147)]);
    assert_eq!(3, arr.len());
    assert_eq!(0, arr.offset());
    assert_eq!(1, arr.null_count());
    for i in 0..3 {
        if i % 2 == 0 {
            assert!(!arr.is_null(i));
            assert!(arr.is_valid(i));
            assert_eq!(1550902545147, arr.value(i));
            // round trip to and from an instant
            assert_eq!(
                1550902545147,
                arr.value_as_datetime(i).unwrap().timestamp_millis()
            );
        } else {
            assert!(arr.is_null(i));
            assert!(!arr.is_valid(i));
        }
    }
}

#[test]
fn test_time32_millisecond_array_from_vec() {
    // 1:        00:00:00.001
    // 37800005: 10:30:00.005
    // 86399210: 23:59:59.210
    let arr = Time32MillisecondArray::from_vec(vec![1, 37_800_005, 86_399_210]);
    assert_eq!(3, arr.len());
    assert_eq!(0, arr.offset());
    assert_eq!(0, arr.null_count());
    let formatted = vec!["00:00:00.001", "10:30:00.005", "23:59:59.210"];
    for i in 0..3 {
        // a time of day gives neither a date nor a full instant
        assert_eq!(None, arr.value_as_datetime(i));
        assert_eq!(None, arr.value_as_date(i));
        let time = arr.value_as_time(i).unwrap();
        assert_eq!(formatted[i], time.format("%H:%M:%S%.3f").to_string());
    }
}

#[test]
fn test_time64_nanosecond_array_from_vec() {
    // 1e6:        00:00:00.001
    // 37800005e6: 10:30:00.005
    // 86399210e6: 23:59:59.210
    let arr =
        Time64NanosecondArray::from_vec(vec![1_000_000, 37_800_005_000_000, 86_399_210_000_000]);
    assert_eq!(3, arr.len());
    assert_eq!(0, arr.offset());
    assert_eq!(0, arr.null_count());
    let formatted = vec!["00:00:00.001", "10:30:00.005", "23:59:59.210"];
    for i in 0..3 {
        // a time of day gives neither a date nor a full instant
        assert_eq!(None, arr.value_as_datetime(i));
        assert_eq!(None, arr.value_as_date(i));
        let time = arr.value_as_time(i).unwrap();
        assert_eq!(formatted[i], time.format("%H:%M:%S%.3f").to_string());
    }
}

#[test]
#[allow(deprecated)]
fn test_timestamp_second_as_datetime() {
    let arr = TimestampSecondArray::from_vec(vec![1546214400, 0, -5]);
    assert_eq!(1546214400, arr.value_as_datetime(0).unwrap().timestamp());
    assert_eq!(0, arr.value_as_datetime(1).unwrap().timestamp());
    assert_eq!(-5, arr.value_as_datetime(2).unwrap().timestamp());
    assert!(arr.value_as_date(0).is_some());
    assert!(arr.value_as_time(0).is_some());
}

#[test]
fn test_date32_midnight_time_and_date() {
    let arr = Date32Array::from_vec(vec![12356, 13548]);
    for i in 0..2 {
        let t = arr.value_as_time(i).unwrap();
        assert_eq!("00:00:00", t.format("%H:%M:%S").to_string());
        assert!(arr.value_as_date(i).is_some());
    }
    assert_eq!(
        "2003-10-31",
        arr.value_as_date(0).unwrap().format("%Y-%m-%d").to_string()
    );
    assert_eq!(
        "2007-02-04",
        arr.value_as_date(1).unwrap().format("%Y-%m-%d").to_string()
    );
}
