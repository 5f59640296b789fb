//! Validation of the values the native engine hands back for level
//! queries. Each native call returns a signed value whose negative
//! range is the documented error sentinel; the functions here turn a
//! raw answer into a checked value or the matching typed error.

use vstd::prelude::*;
use vstd::string::StringExecFns;

use crate::error::{Error, ErrorKind};
use crate::fmt::{message_with_i64, spec_i64_dec, spec_u64_dec, u64_to_string};

verus! {

/// Checks the raw level count returned by the native engine: a
/// negative count is the documented error sentinel.
pub fn level_count_from_raw(raw: i32) -> (r: Result<u32, Error>)
    ensures
        raw >= 0 <==> r is Ok,
        r matches Ok(v) ==> v == raw,
        r matches Err(e) ==> e.spec_kind() matches ErrorKind::ReturnValue { in_function, message }
            && in_function@ == "get_level_count"@ && message@ == "returned num_levels = "@
            + spec_i64_dec(raw as int),
{
    if raw < 0 {
        Err(
            Error::new(
                ErrorKind::ReturnValue {
                    in_function: "get_level_count".to_owned(),
                    message: message_with_i64("returned num_levels = ", raw as i64),
                },
            ),
        )
    } else {
        Ok(raw as u32)
    }
}

/// Checks a raw (width, height) dimension pair returned by the native
/// engine for the named query: a negative extent is the documented
/// error sentinel. The width is checked first.
pub fn dimensions_from_raw(raw_width: i64, raw_height: i64, in_function: &str) -> (r: Result<
    (u64, u64),
    Error,
>)
    ensures
        (raw_width >= 0 && raw_height >= 0) <==> r is Ok,
        r matches Ok(d) ==> d.0 == raw_width && d.1 == raw_height,
        r matches Err(e) ==> e.spec_kind() matches ErrorKind::ReturnValue {
            in_function: f,
            message,
        } && f@ == in_function@ && (if raw_width < 0 {
            message@ == "returned width = "@ + spec_i64_dec(raw_width as int)
        } else {
            message@ == "returned height = "@ + spec_i64_dec(raw_height as int)
        }),
{
    if raw_width < 0 {
        Err(
            Error::new(
                ErrorKind::ReturnValue {
                    in_function: in_function.to_owned(),
                    message: message_with_i64("returned width = ", raw_width),
                },
            ),
        )
    } else if raw_height < 0 {
        Err(
            Error::new(
                ErrorKind::ReturnValue {
                    in_function: in_function.to_owned(),
                    message: message_with_i64("returned height = ", raw_height),
                },
            ),
        )
    } else {
        Ok((raw_width as u64, raw_height as u64))
    }
}

/// Checks the raw downsample factor returned by the native engine, in
/// thousandths: a negative factor is the documented error sentinel.
pub fn downsample_from_raw(raw_milli: i64) -> (r: Result<u64, Error>)
    ensures
        raw_milli >= 0 <==> r is Ok,
        r matches Ok(v) ==> v == raw_milli,
        r matches Err(e) ==> e.spec_kind() matches ErrorKind::ReturnValue { in_function, message }
            && in_function@ == "get_level_downsample"@ && message@
            == "returned downsample_factor_milli = "@ + spec_i64_dec(raw_milli as int),
{
    if raw_milli < 0 {
        Err(
            Error::new(
                ErrorKind::ReturnValue {
                    in_function: "get_level_downsample".to_owned(),
                    message: message_with_i64("returned downsample_factor_milli = ", raw_milli),
                },
            ),
        )
    } else {
        Ok(raw_milli as u64)
    }
}

/// Checks a requested target downsample factor, in thousandths: a
/// negative target violates the documented range constraint.
pub fn check_downsample_target(target_milli: i64) -> (r: Result<(), Error>)
    ensures
        target_milli >= 0 <==> r is Ok,
        r matches Err(e) ==> e.spec_kind() matches ErrorKind::OutOfBounds { message } && message@
            == "Specified downsample factor is negative: "@ + spec_i64_dec(target_milli as int),
{
    if target_milli < 0 {
        Err(
            Error::new(
                ErrorKind::OutOfBounds {
                    message: message_with_i64(
                        "Specified downsample factor is negative: ",
                        target_milli,
                    ),
                },
            ),
        )
    } else {
        Ok(())
    }
}

/// Checks the raw best-level answer returned by the native engine: a
/// negative level is the documented error sentinel.
pub fn best_level_from_raw(raw: i32) -> (r: Result<u32, Error>)
    ensures
        raw >= 0 <==> r is Ok,
        r matches Ok(v) ==> v == raw,
        r matches Err(e) ==> e.spec_kind() matches ErrorKind::ReturnValue { in_function, message }
            && in_function@ == "get_best_level_for_downsample"@ && message@ == "returned level = "@
            + spec_i64_dec(raw as int),
{
    if raw < 0 {
        Err(
            Error::new(
                ErrorKind::ReturnValue {
                    in_function: "get_best_level_for_downsample".to_owned(),
                    message: message_with_i64("returned level = ", raw as i64),
                },
            ),
        )
    } else {
        Ok(raw as u32)
    }
}

/// Checks that a level index is below the level count.
pub fn check_level_validity(level: u32, level_count: u32) -> (r: Result<(), Error>)
    ensures
        level < level_count <==> r is Ok,
        r matches Err(e) ==> e.spec_kind() matches ErrorKind::OutOfBounds { message } && message@
            == "Specified level "@ + spec_u64_dec(level as nat)
            + " is not below the level count "@ + spec_u64_dec(level_count as nat),
{
    if level >= level_count {
        let mut message = "Specified level ".to_owned();
        let rendered_level = u64_to_string(level as u64);
        message.append(rendered_level.as_str());
        message.append(" is not below the level count ");
        let rendered_count = u64_to_string(level_count as u64);
        message.append(rendered_count.as_str());
        Err(Error::new(ErrorKind::OutOfBounds { message }))
    } else {
        Ok(())
    }
}

} // verus!
