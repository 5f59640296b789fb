//! Tests of the decimal rendering used in error messages.

use openslide::error::{Error, ErrorKind};
use openslide::fmt::{i64_to_string, message_with_i64, message_with_u64, u64_to_string};
use openslide::resolver::level_count_from_raw;

#[test]
fn unsigned_decimal_rendering() {
    assert_eq!(u64_to_string(0), "0");
    assert_eq!(u64_to_string(7), "7");
    assert_eq!(u64_to_string(10), "10");
    assert_eq!(u64_to_string(2967), "2967");
    assert_eq!(u64_to_string(18446744073709551615), "18446744073709551615");
}

#[test]
fn signed_decimal_rendering() {
    assert_eq!(i64_to_string(0), "0");
    assert_eq!(i64_to_string(-1), "-1");
    assert_eq!(i64_to_string(-123), "-123");
    assert_eq!(i64_to_string(9223372036854775807), "9223372036854775807");
    assert_eq!(i64_to_string(-9223372036854775808), "-9223372036854775808");
}

#[test]
fn messages_carry_the_observed_value() {
    assert_eq!(message_with_i64("returned level = ", -1), "returned level = -1");
    assert_eq!(message_with_u64("count ", 12), "count 12");
}

#[test]
fn errors_describe_themselves() {
    let e = level_count_from_raw(-3).err().unwrap();
    assert_eq!(
        e.describe(),
        "ERROR: Returned error value in function get_level_count from the native library: \
         returned num_levels = -3"
    );
    let e = Error::new(ErrorKind::NonNullErrorState {
        in_function: String::from("read_region"),
        message: String::from("corrupt tile"),
    });
    assert_eq!(
        e.describe(),
        "ERROR: The slide object was in a non-null error state and has been closed.\n\
         In function read_region from the native library: corrupt tile"
    );
    let e = Error::new(ErrorKind::Io {
        message: String::from("missing file"),
    });
    assert_eq!(e.describe(), "ERROR: Input/output: missing file");
    assert_eq!(e.message().unwrap(), "missing file");
    assert_eq!(e.in_function(), None);
    assert!(matches!(e.into_kind(), ErrorKind::Io { .. }));
    let e = Error::new(ErrorKind::Nul {
        message: String::from("nul at position 3"),
    });
    assert_eq!(e.describe(), "ERROR: Embedded nul character: nul at position 3");
    let e = Error::new(ErrorKind::Utf8 {
        message: String::from("invalid byte"),
    });
    assert_eq!(e.describe(), "ERROR: Decoding UTF-8: invalid byte");
    assert!(matches!(e.kind(), ErrorKind::Utf8 { .. }));
}
