//! Row-by-row rules of the JSON (variant) scalar functions: which inputs give SQL NULL,
//! which give an error and with what message, and which value is passed on. The JSONB
//! encoding and decoding themselves are done by the JSONB library and come in here as
//! arguments.
use vstd::prelude::*;
use vstd::string::*;
use vstd::utf8::{decode_utf8, valid_utf8};

verus! {

/// What `bstr::ByteSlice::trim` leaves of `s`: `s` without its leading and trailing
/// characters of the Unicode `White_Space` property.
pub uninterp spec fn bstr_trim(s: Seq<u8>) -> Seq<u8>;

/// What `String::from_utf8_lossy` makes of `s`.
pub uninterp spec fn utf8_lossy(s: Seq<u8>) -> Seq<char>;

/// Whether `b` is an ASCII character of the Unicode `White_Space` property: tab, line feed,
/// vertical tab, form feed, carriage return or space.
pub open spec fn is_ascii_white_space(b: u8) -> bool {
    (9 <= b && b <= 13) || b == 32
}

/// Whether `s` is made only of ASCII white space.
pub open spec fn all_ascii_white_space(s: Seq<u8>) -> bool {
    forall|k: int| 0 <= k < s.len() ==> is_ascii_white_space(#[trigger] s[k])
}

/// Whether `part` is `s` between two positions.
pub open spec fn is_contiguous_part(part: Seq<u8>, s: Seq<u8>) -> bool {
    exists|i: int, j: int| 0 <= i <= j <= s.len() && part == s.subrange(i, j)
}

/// `bstr::ByteSlice::trim`: a contiguous part of `s` (bstr slices `s` at the ends of its
/// leading and trailing white space), empty when `s` is made only of ASCII white space.
#[verifier::external_body]
fn trim_bytes(s: &[u8]) -> (r: &[u8])
    ensures
        r@ == bstr_trim(s@),
        is_contiguous_part(r@, s@),
        all_ascii_white_space(s@) ==> r@.len() == 0,
{
    bstr::ByteSlice::trim(s)
}

/// `String::from_utf8_lossy`: the text of `s`, with each invalid UTF-8 sequence replaced by
/// U+FFFD; on valid UTF-8 it is the decoded text.
#[verifier::external_body]
fn lossy_text(s: &[u8]) -> (r: String)
    ensures
        r@ == utf8_lossy(s@),
        valid_utf8(s@) ==> r@ == decode_utf8(s@),
{
    String::from_utf8_lossy(s).into_owned()
}

/// `String::from_utf8`: the text of `bytes` when they are valid UTF-8, nothing otherwise.
#[verifier::external_body]
fn text_from_utf8(bytes: &[u8]) -> (r: Option<String>)
    ensures
        r is Some <==> valid_utf8(bytes@),
        r matches Some(t) ==> t@ == decode_utf8(bytes@),
{
    String::from_utf8(bytes.to_vec()).ok()
}

/// The JSONB encoding of the JSON value `null`.
pub open spec fn jsonb_null_bytes() -> Seq<u8> {
    seq![0x20u8, 0x00u8, 0x00u8, 0x00u8, 0x00u8, 0x00u8, 0x00u8, 0x00u8]
}

/// The JSONB encoding of the JSON value `null`.
pub fn jsonb_null() -> (r: Vec<u8>)
    ensures
        r@ == jsonb_null_bytes(),
{
    let r: Vec<u8> = vec![0x20u8, 0x00u8, 0x00u8, 0x00u8, 0x00u8, 0x00u8, 0x00u8, 0x00u8];
    assert(r@ =~= jsonb_null_bytes());
    r
}

/// Whether `s` holds nothing but white space.
pub open spec fn spec_is_blank(s: Seq<u8>) -> bool {
    bstr_trim(s).len() == 0
}

/// Whether `s` holds nothing but white space.
pub fn is_blank(s: &[u8]) -> (r: bool)
    ensures
        r == spec_is_blank(s@),
        all_ascii_white_space(s@) ==> spec_is_blank(s@),
{
    trim_bytes(s).len() == 0
}

/// The message of a JSON text that does not parse.
pub open spec fn spec_parse_error_message(s: Seq<u8>, error: Seq<char>) -> Seq<char> {
    "unable to parse '"@ + utf8_lossy(s) + "': "@ + error
}

/// The message of a JSON text that does not parse: the text (invalid UTF-8 replaced) and
/// the parser's error.
pub fn parse_error_message(s: &[u8], error: &str) -> (r: String)
    ensures
        r@ == spec_parse_error_message(s@, error@),
{
    let mut m = String::from_str("unable to parse '");
    let text = lossy_text(s);
    m.append(text.as_str());
    m.append("': ");
    m.append(error);
    m
}

/// The message of an extraction path that does not parse.
pub open spec fn spec_path_error_message(path: Seq<u8>, error: Seq<char>) -> Seq<char> {
    "Invalid extraction path '"@ + utf8_lossy(path) + "': "@ + error
}

/// The message of an extraction path that does not parse: the path (invalid UTF-8 replaced)
/// and the parser's error.
pub fn path_error_message(path: &[u8], error: &str) -> (r: String)
    ensures
        r@ == spec_path_error_message(path@, error@),
{
    let mut m = String::from_str("Invalid extraction path '");
    let text = lossy_text(path);
    m.append(text.as_str());
    m.append("': ");
    m.append(error);
    m
}

/// The message of a value that cannot be cast to a type.
pub open spec fn spec_cast_error_message(value: Seq<char>, target: Seq<char>) -> Seq<char> {
    "unable to cast "@ + value + " to "@ + target
}

/// The message of a value (in its JSON text form) that cannot be cast to the type named
/// `target`.
pub fn cast_error_message(value: &str, target: &str) -> (r: String)
    ensures
        r@ == spec_cast_error_message(value@, target@),
{
    let mut m = String::from_str("unable to cast ");
    m.append(value);
    m.append(" to ");
    m.append(target);
    m
}

/// A result with its error message taken as characters.
pub open spec fn message_view<T>(r: Result<T, String>) -> Result<T, Seq<char>> {
    match r {
        Ok(x) => Ok(x),
        Err(m) => Err(m@),
    }
}

/// A result with its bytes and its error message taken as sequences.
pub open spec fn bytes_message_view(r: Result<Vec<u8>, String>) -> Result<Seq<u8>, Seq<char>> {
    match r {
        Ok(b) => Ok(b@),
        Err(m) => Err(m@),
    }
}

/// An optional byte vector taken as a sequence.
pub open spec fn bytes_view(o: Option<Vec<u8>>) -> Option<Seq<u8>> {
    match o {
        Some(b) => Some(b@),
        None => None,
    }
}

/// The value in `o`, or the error `message` when there is none.
pub open spec fn ok_or_message<T>(o: Option<T>, message: Seq<char>) -> Result<T, Seq<char>> {
    match o {
        Some(x) => Ok(x),
        None => Err(message),
    }
}

/// What `parse_json` gives for the text `s` whose parse outcome is `parsed`.
pub open spec fn spec_parse_json_text(s: Seq<u8>, parsed: Result<Seq<u8>, Seq<char>>) -> Result<
    Seq<u8>,
    Seq<char>,
> {
    if spec_is_blank(s) {
        Ok(jsonb_null_bytes())
    } else {
        match parsed {
            Ok(b) => Ok(b),
            Err(e) => Err(spec_parse_error_message(s, e)),
        }
    }
}

/// What `try_parse_json` gives for the text `s` whose parse outcome is `parsed`.
pub open spec fn spec_try_parse_json_text(s: Seq<u8>, parsed: Option<Seq<u8>>) -> Option<Seq<u8>> {
    if spec_is_blank(s) {
        Some(jsonb_null_bytes())
    } else {
        parsed
    }
}

/// `parse_json` on a string: a blank text is JSON `null`; any other text gives the JSONB
/// encoding of its value (`parsed`, the outcome of parsing `s`), or an error that quotes the
/// text when it does not parse.
pub fn parse_json_text(s: &[u8], parsed: Result<Vec<u8>, String>) -> (r: Result<Vec<u8>, String>)
    ensures
        bytes_message_view(r) == spec_parse_json_text(s@, bytes_message_view(parsed)),
        all_ascii_white_space(s@) ==> spec_is_blank(s@),
{
    if is_blank(s) {
        return Ok(jsonb_null());
    }
    match parsed {
        Ok(b) => Ok(b),
        Err(e) => Err(parse_error_message(s, e.as_str())),
    }
}

/// `try_parse_json` on a string: a blank text is JSON `null`; any other text gives the JSONB
/// encoding of its value (`parsed`, the outcome of parsing `s`), or SQL NULL when it does
/// not parse.
pub fn try_parse_json_text(s: &[u8], parsed: Option<Vec<u8>>) -> (r: Option<Vec<u8>>)
    ensures
        bytes_view(r) == spec_try_parse_json_text(s@, bytes_view(parsed)),
        all_ascii_white_space(s@) ==> spec_is_blank(s@),
{
    if is_blank(s) {
        Some(jsonb_null())
    } else {
        parsed
    }
}

/// `check_json` on a string: SQL NULL for a blank text and for a text that parses; the
/// parser's error (`parse_error`, the outcome of parsing `s`) otherwise.
pub fn check_json_text(s: &[u8], parse_error: Option<String>) -> (r: Option<String>)
    ensures
        spec_is_blank(s@) ==> r is None,
        !spec_is_blank(s@) ==> r == parse_error,
        all_ascii_white_space(s@) ==> spec_is_blank(s@),
{
    if is_blank(s) {
        None
    } else {
        parse_error
    }
}

/// `get` by array index: the index to look up in `value`, or none (SQL NULL without a
/// lookup) when either argument is NULL or the value is empty.
pub fn get_index_lookup(value: Option<&[u8]>, index: Option<u64>) -> (r: Option<u64>)
    ensures
        r == (match (value, index) {
            (Some(v), Some(i)) => if v@.len() == 0 {
                None::<u64>
            } else {
                Some(i)
            },
            _ => None::<u64>,
        }),
{
    match (value, index) {
        (Some(v), Some(i)) => {
            if v.len() == 0 {
                None
            } else {
                Some(i)
            }
        },
        _ => None,
    }
}

/// `get` and `get_ignore_case` by field name: the name to look up in `value`, or none (SQL
/// NULL without a lookup) when either argument is NULL, the value is empty, the name is
/// blank, or the name is not UTF-8.
pub fn get_name_lookup(value: Option<&[u8]>, name: Option<&[u8]>) -> (r: Option<String>)
    ensures
        r is Some <==> (value matches Some(v) && v@.len() > 0 && (name matches Some(n)
            && !spec_is_blank(n@) && valid_utf8(n@))),
        r matches Some(t) ==> name matches Some(n) && t@ == decode_utf8(n@),
{
    match (value, name) {
        (Some(v), Some(n)) => {
            if v.len() == 0 || is_blank(n) {
                None
            } else {
                text_from_utf8(n)
            }
        },
        _ => None,
    }
}

/// `get_path`: whether to look the path up in `value`; not (SQL NULL) when either argument
/// is NULL or empty.
pub fn get_path_lookup(value: Option<&[u8]>, path: Option<&[u8]>) -> (r: bool)
    ensures
        r == (value matches Some(v) && v@.len() > 0 && (path matches Some(p) && p@.len() > 0)),
{
    match (value, path) {
        (Some(v), Some(p)) => v.len() > 0 && p.len() > 0,
        _ => false,
    }
}

/// `get_path`: SQL NULL, never an error, when either argument is NULL or empty or when the
/// path does not parse (`path_parses`, the outcome of parsing it); otherwise the value found
/// at the parsed path (`found`, SQL NULL when there is none).
pub fn get_path_value(
    value: Option<&[u8]>,
    path: Option<&[u8]>,
    path_parses: bool,
    found: Option<Vec<u8>>,
) -> (r: Option<Vec<u8>>)
    ensures
        r == (if (value matches Some(v) && v@.len() > 0 && (path matches Some(p) && p@.len() > 0))
            && path_parses {
            found
        } else {
            None::<Vec<u8>>
        }),
{
    if get_path_lookup(value, path) && path_parses {
        found
    } else {
        None
    }
}

/// `json_extract_path_text`: SQL NULL for an empty text or path; an error that quotes the
/// text when it does not parse (`value_error`), else one that quotes the path when it does
/// not parse (`path_error`); else the text form of the value found at the path (`found`).
pub fn extract_path_text(
    s: &[u8],
    path: &[u8],
    value_error: Option<String>,
    path_error: Option<String>,
    found: Option<String>,
) -> (r: Result<Option<String>, String>)
    ensures
        s@.len() == 0 || path@.len() == 0 ==> r == Ok::<Option<String>, String>(None),
        s@.len() > 0 && path@.len() > 0 ==> match (value_error, path_error) {
            (Some(e), _) => r matches Err(m) && m@ == spec_parse_error_message(s@, e@),
            (None, Some(e)) => r matches Err(m) && m@ == spec_path_error_message(path@, e@),
            (None, None) => r == Ok::<Option<String>, String>(found),
        },
{
    if s.len() == 0 || path.len() == 0 {
        return Ok(None);
    }
    match value_error {
        Some(e) => Err(parse_error_message(s, e.as_str())),
        None => match path_error {
            Some(e) => Err(path_error_message(path, e.as_str())),
            None => Ok(found),
        },
    }
}

/// `as_boolean`, `as_integer`, `as_float`, `as_string`: SQL NULL for an empty value,
/// otherwise the value as the scalar type (`converted`), or SQL NULL when it is not one.
pub fn scalar_unless_empty<T>(value: &[u8], converted: Option<T>) -> (r: Option<T>)
    ensures
        value@.len() == 0 ==> r is None,
        value@.len() > 0 ==> r == converted,
{
    if value.len() == 0 {
        None
    } else {
        converted
    }
}

/// `as_array`, `as_object`: the value itself when it is non-empty and of the kind asked
/// for (`is_kind`), SQL NULL otherwise.
pub fn container_unless_empty(value: &[u8], is_kind: bool) -> (r: Option<Vec<u8>>)
    ensures
        r is Some <==> value@.len() > 0 && is_kind,
        r matches Some(b) ==> b@ == value@,
{
    if value.len() == 0 {
        None
    } else if is_kind {
        let mut b: Vec<u8> = Vec::new();
        let mut i: usize = 0;
        while i < value.len()
            invariant
                i <= value@.len(),
                b@ == value@.take(i as int),
            decreases value.len() - i,
        {
            b.push(value[i]);
            assert(value@.take(i + 1) =~= value@.take(i as int).push(value@[i as int]));
            i = i + 1;
        }
        assert(value@.take(value@.len() as int) =~= value@);
        Some(b)
    } else {
        None
    }
}

/// `length`: the length of a JSON array as a `u32` (truncated, as a cast does), SQL NULL
/// for NULL and for a value that is no array (`array_length` is the array's length, if it
/// is one).
pub fn length_of(array_length: Option<usize>) -> (r: Option<u32>)
    ensures
        r == (match array_length {
            Some(n) => Some(n as u32),
            None => None::<u32>,
        }),
{
    match array_length {
        Some(n) => Some(n as u32),
        None => None,
    }
}

/// `to_boolean`, `to_string`, `to_timestamp` and the like: the value converted to the type
/// named `target` (`converted`), or an error that quotes the value's JSON text
/// (`value_text`) and the type when it does not convert.
pub fn cast_or_error<T>(value_text: &str, target: &str, converted: Option<T>) -> (r: Result<
    T,
    String,
>)
    ensures
        message_view(r) == ok_or_message(converted, spec_cast_error_message(value_text@, target@)),
{
    match converted {
        Some(x) => Ok(x),
        None => Err(cast_error_message(value_text, target)),
    }
}

/// Days from 0001-01-01 (day 1) to 1970-01-01.
pub const EPOCH_DAYS_FROM_CE: i32 = 719163;

/// The days since 1970-01-01 of the date `days_from_ce` days into the common era, if there
/// is a date.
pub open spec fn spec_try_to_date(days_from_ce: Option<i32>) -> Option<i32> {
    match days_from_ce {
        Some(d) => Some((d - EPOCH_DAYS_FROM_CE) as i32),
        None => None,
    }
}

/// `try_to_date`: the number of days since 1970-01-01 of a date given as days from the
/// common era (`days_from_ce`, the date the value's text denotes, if it is a string that
/// denotes one), or SQL NULL when there is no such date.
pub fn try_to_date(days_from_ce: Option<i32>) -> (r: Option<i32>)
    requires
        days_from_ce matches Some(d) ==> d >= i32::MIN + EPOCH_DAYS_FROM_CE,
    ensures
        r == spec_try_to_date(days_from_ce),
{
    match days_from_ce {
        Some(d) => Some(d - EPOCH_DAYS_FROM_CE),
        None => None,
    }
}

/// `to_date`: the number of days since 1970-01-01 of a date given as days from the common
/// era (`days_from_ce`, the date the value's text denotes, if it is a string that denotes
/// one), or an error that quotes the value's JSON text when there is no such date.
pub fn to_date(value_text: &str, days_from_ce: Option<i32>) -> (r: Result<i32, String>)
    requires
        days_from_ce matches Some(d) ==> d >= i32::MIN + EPOCH_DAYS_FROM_CE,
    ensures
        message_view(r) == ok_or_message(
            spec_try_to_date(days_from_ce),
            spec_cast_error_message(value_text@, "DateType"@),
        ),
{
    match days_from_ce {
        Some(d) => Ok(d - EPOCH_DAYS_FROM_CE),
        None => Err(cast_error_message(value_text, "DateType")),
    }
}


/// `num_traits::cast` from `i64` to `i8`: the same value when `i8` holds it, nothing
/// otherwise.
#[verifier::external_body]
fn cast_i64_to_i8(v: i64) -> (r: Option<i8>)
    ensures
        r == (if i8::MIN <= v <= i8::MAX {
            Some(v as i8)
        } else {
            None::<i8>
        }),
{
    num_traits::cast::cast::<i64, i8>(v)
}

/// What `try_to_int8` gives for a value that is the number `converted` (none when it is no
/// `i64`): the number as a `i8` when it fits.
pub open spec fn spec_try_to_int8(converted: Option<i64>) -> Option<i8> {
    match converted {
        Some(v) => if i8::MIN <= v <= i8::MAX {
            Some(v as i8)
        } else {
            None::<i8>
        },
        None => None::<i8>,
    }
}

/// What `to_int8` gives for a value with JSON text `value_text` that is the number
/// `converted` (none when it is no `i64`).
pub open spec fn spec_to_int8(value_text: Seq<char>, converted: Option<i64>) -> Result<i8, Seq<char>> {
    ok_or_message(spec_try_to_int8(converted), spec_cast_error_message(value_text, "Int8"@))
}

/// `to_int8`: the value (`converted`, the value as a `i64` if it is a number that is one)
/// as a `i8`, or an error that quotes the value's JSON text when it is none or out of
/// range.
pub fn to_int8(value_text: &str, converted: Option<i64>) -> (r: Result<i8, String>)
    ensures
        message_view(r) == spec_to_int8(value_text@, converted),
{
    let narrowed = match converted {
        Some(v) => cast_i64_to_i8(v),
        None => None,
    };
    cast_or_error(value_text, "Int8", narrowed)
}

/// `try_to_int8`: the value (`converted`, the value as a `i64` if it is a number that is
/// one) as a `i8`, or SQL NULL when it is none or out of range.
pub fn try_to_int8(converted: Option<i64>) -> (r: Option<i8>)
    ensures
        r == spec_try_to_int8(converted),
{
    match converted {
        Some(v) => cast_i64_to_i8(v),
        None => None,
    }
}

/// `try_to_int8` differs from `to_int8` only in giving SQL NULL where `to_int8` gives an
/// error.
pub proof fn law_try_to_int8_nulls_errors(value_text: Seq<char>, converted: Option<i64>)
    ensures
        forall|y: i8|
            spec_try_to_int8(converted) == Some(y) <==> #[trigger] spec_to_int8(value_text, converted)
                == Ok::<i8, Seq<char>>(y),
        spec_try_to_int8(converted) is None <==> spec_to_int8(value_text, converted) is Err,
{
}

/// `num_traits::cast` from `i64` to `i16`: the same value when `i16` holds it, nothing
/// otherwise.
#[verifier::external_body]
fn cast_i64_to_i16(v: i64) -> (r: Option<i16>)
    ensures
        r == (if i16::MIN <= v <= i16::MAX {
            Some(v as i16)
        } else {
            None::<i16>
        }),
{
    num_traits::cast::cast::<i64, i16>(v)
}

/// What `try_to_int16` gives for a value that is the number `converted` (none when it is no
/// `i64`): the number as a `i16` when it fits.
pub open spec fn spec_try_to_int16(converted: Option<i64>) -> Option<i16> {
    match converted {
        Some(v) => if i16::MIN <= v <= i16::MAX {
            Some(v as i16)
        } else {
            None::<i16>
        },
        None => None::<i16>,
    }
}

/// What `to_int16` gives for a value with JSON text `value_text` that is the number
/// `converted` (none when it is no `i64`).
pub open spec fn spec_to_int16(value_text: Seq<char>, converted: Option<i64>) -> Result<i16, Seq<char>> {
    ok_or_message(spec_try_to_int16(converted), spec_cast_error_message(value_text, "Int16"@))
}

/// `to_int16`: the value (`converted`, the value as a `i64` if it is a number that is one)
/// as a `i16`, or an error that quotes the value's JSON text when it is none or out of
/// range.
pub fn to_int16(value_text: &str, converted: Option<i64>) -> (r: Result<i16, String>)
    ensures
        message_view(r) == spec_to_int16(value_text@, converted),
{
    let narrowed = match converted {
        Some(v) => cast_i64_to_i16(v),
        None => None,
    };
    cast_or_error(value_text, "Int16", narrowed)
}

/// `try_to_int16`: the value (`converted`, the value as a `i64` if it is a number that is
/// one) as a `i16`, or SQL NULL when it is none or out of range.
pub fn try_to_int16(converted: Option<i64>) -> (r: Option<i16>)
    ensures
        r == spec_try_to_int16(converted),
{
    match converted {
        Some(v) => cast_i64_to_i16(v),
        None => None,
    }
}

/// `try_to_int16` differs from `to_int16` only in giving SQL NULL where `to_int16` gives an
/// error.
pub proof fn law_try_to_int16_nulls_errors(value_text: Seq<char>, converted: Option<i64>)
    ensures
        forall|y: i16|
            spec_try_to_int16(converted) == Some(y) <==> #[trigger] spec_to_int16(value_text, converted)
                == Ok::<i16, Seq<char>>(y),
        spec_try_to_int16(converted) is None <==> spec_to_int16(value_text, converted) is Err,
{
}

/// `num_traits::cast` from `i64` to `i32`: the same value when `i32` holds it, nothing
/// otherwise.
#[verifier::external_body]
fn cast_i64_to_i32(v: i64) -> (r: Option<i32>)
    ensures
        r == (if i32::MIN <= v <= i32::MAX {
            Some(v as i32)
        } else {
            None::<i32>
        }),
{
    num_traits::cast::cast::<i64, i32>(v)
}

/// What `try_to_int32` gives for a value that is the number `converted` (none when it is no
/// `i64`): the number as a `i32` when it fits.
pub open spec fn spec_try_to_int32(converted: Option<i64>) -> Option<i32> {
    match converted {
        Some(v) => if i32::MIN <= v <= i32::MAX {
            Some(v as i32)
        } else {
            None::<i32>
        },
        None => None::<i32>,
    }
}

/// What `to_int32` gives for a value with JSON text `value_text` that is the number
/// `converted` (none when it is no `i64`).
pub open spec fn spec_to_int32(value_text: Seq<char>, converted: Option<i64>) -> Result<i32, Seq<char>> {
    ok_or_message(spec_try_to_int32(converted), spec_cast_error_message(value_text, "Int32"@))
}

/// `to_int32`: the value (`converted`, the value as a `i64` if it is a number that is one)
/// as a `i32`, or an error that quotes the value's JSON text when it is none or out of
/// range.
pub fn to_int32(value_text: &str, converted: Option<i64>) -> (r: Result<i32, String>)
    ensures
        message_view(r) == spec_to_int32(value_text@, converted),
{
    let narrowed = match converted {
        Some(v) => cast_i64_to_i32(v),
        None => None,
    };
    cast_or_error(value_text, "Int32", narrowed)
}

/// `try_to_int32`: the value (`converted`, the value as a `i64` if it is a number that is
/// one) as a `i32`, or SQL NULL when it is none or out of range.
pub fn try_to_int32(converted: Option<i64>) -> (r: Option<i32>)
    ensures
        r == spec_try_to_int32(converted),
{
    match converted {
        Some(v) => cast_i64_to_i32(v),
        None => None,
    }
}

/// `try_to_int32` differs from `to_int32` only in giving SQL NULL where `to_int32` gives an
/// error.
pub proof fn law_try_to_int32_nulls_errors(value_text: Seq<char>, converted: Option<i64>)
    ensures
        forall|y: i32|
            spec_try_to_int32(converted) == Some(y) <==> #[trigger] spec_to_int32(value_text, converted)
                == Ok::<i32, Seq<char>>(y),
        spec_try_to_int32(converted) is None <==> spec_to_int32(value_text, converted) is Err,
{
}

/// `num_traits::cast` from `i64` to `i64`: the same value when `i64` holds it, nothing
/// otherwise.
#[verifier::external_body]
fn cast_i64_to_i64(v: i64) -> (r: Option<i64>)
    ensures
        r == (if i64::MIN <= v <= i64::MAX {
            Some(v as i64)
        } else {
            None::<i64>
        }),
{
    num_traits::cast::cast::<i64, i64>(v)
}

/// What `try_to_int64` gives for a value that is the number `converted` (none when it is no
/// `i64`): the number as a `i64` when it fits.
pub open spec fn spec_try_to_int64(converted: Option<i64>) -> Option<i64> {
    match converted {
        Some(v) => if i64::MIN <= v <= i64::MAX {
            Some(v as i64)
        } else {
            None::<i64>
        },
        None => None::<i64>,
    }
}

/// What `to_int64` gives for a value with JSON text `value_text` that is the number
/// `converted` (none when it is no `i64`).
pub open spec fn spec_to_int64(value_text: Seq<char>, converted: Option<i64>) -> Result<i64, Seq<char>> {
    ok_or_message(spec_try_to_int64(converted), spec_cast_error_message(value_text, "Int64"@))
}

/// `to_int64`: the value (`converted`, the value as a `i64` if it is a number that is one)
/// as a `i64`, or an error that quotes the value's JSON text when it is none or out of
/// range.
pub fn to_int64(value_text: &str, converted: Option<i64>) -> (r: Result<i64, String>)
    ensures
        message_view(r) == spec_to_int64(value_text@, converted),
{
    let narrowed = match converted {
        Some(v) => cast_i64_to_i64(v),
        None => None,
    };
    cast_or_error(value_text, "Int64", narrowed)
}

/// `try_to_int64`: the value (`converted`, the value as a `i64` if it is a number that is
/// one) as a `i64`, or SQL NULL when it is none or out of range.
pub fn try_to_int64(converted: Option<i64>) -> (r: Option<i64>)
    ensures
        r == spec_try_to_int64(converted),
{
    match converted {
        Some(v) => cast_i64_to_i64(v),
        None => None,
    }
}

/// `try_to_int64` differs from `to_int64` only in giving SQL NULL where `to_int64` gives an
/// error.
pub proof fn law_try_to_int64_nulls_errors(value_text: Seq<char>, converted: Option<i64>)
    ensures
        forall|y: i64|
            spec_try_to_int64(converted) == Some(y) <==> #[trigger] spec_to_int64(value_text, converted)
                == Ok::<i64, Seq<char>>(y),
        spec_try_to_int64(converted) is None <==> spec_to_int64(value_text, converted) is Err,
{
}

/// `num_traits::cast` from `u64` to `u8`: the same value when `u8` holds it, nothing
/// otherwise.
#[verifier::external_body]
fn cast_u64_to_u8(v: u64) -> (r: Option<u8>)
    ensures
        r == (if u8::MIN <= v <= u8::MAX {
            Some(v as u8)
        } else {
            None::<u8>
        }),
{
    num_traits::cast::cast::<u64, u8>(v)
}

/// What `try_to_uint8` gives for a value that is the number `converted` (none when it is no
/// `u64`): the number as a `u8` when it fits.
pub open spec fn spec_try_to_uint8(converted: Option<u64>) -> Option<u8> {
    match converted {
        Some(v) => if u8::MIN <= v <= u8::MAX {
            Some(v as u8)
        } else {
            None::<u8>
        },
        None => None::<u8>,
    }
}

/// What `to_uint8` gives for a value with JSON text `value_text` that is the number
/// `converted` (none when it is no `u64`).
pub open spec fn spec_to_uint8(value_text: Seq<char>, converted: Option<u64>) -> Result<u8, Seq<char>> {
    ok_or_message(spec_try_to_uint8(converted), spec_cast_error_message(value_text, "UInt8"@))
}

/// `to_uint8`: the value (`converted`, the value as a `u64` if it is a number that is one)
/// as a `u8`, or an error that quotes the value's JSON text when it is none or out of
/// range.
pub fn to_uint8(value_text: &str, converted: Option<u64>) -> (r: Result<u8, String>)
    ensures
        message_view(r) == spec_to_uint8(value_text@, converted),
{
    let narrowed = match converted {
        Some(v) => cast_u64_to_u8(v),
        None => None,
    };
    cast_or_error(value_text, "UInt8", narrowed)
}

/// `try_to_uint8`: the value (`converted`, the value as a `u64` if it is a number that is
/// one) as a `u8`, or SQL NULL when it is none or out of range.
pub fn try_to_uint8(converted: Option<u64>) -> (r: Option<u8>)
    ensures
        r == spec_try_to_uint8(converted),
{
    match converted {
        Some(v) => cast_u64_to_u8(v),
        None => None,
    }
}

/// `try_to_uint8` differs from `to_uint8` only in giving SQL NULL where `to_uint8` gives an
/// error.
pub proof fn law_try_to_uint8_nulls_errors(value_text: Seq<char>, converted: Option<u64>)
    ensures
        forall|y: u8|
            spec_try_to_uint8(converted) == Some(y) <==> #[trigger] spec_to_uint8(value_text, converted)
                == Ok::<u8, Seq<char>>(y),
        spec_try_to_uint8(converted) is None <==> spec_to_uint8(value_text, converted) is Err,
{
}

/// `num_traits::cast` from `u64` to `u16`: the same value when `u16` holds it, nothing
/// otherwise.
#[verifier::external_body]
fn cast_u64_to_u16(v: u64) -> (r: Option<u16>)
    ensures
        r == (if u16::MIN <= v <= u16::MAX {
            Some(v as u16)
        } else {
            None::<u16>
        }),
{
    num_traits::cast::cast::<u64, u16>(v)
}

/// What `try_to_uint16` gives for a value that is the number `converted` (none when it is no
/// `u64`): the number as a `u16` when it fits.
pub open spec fn spec_try_to_uint16(converted: Option<u64>) -> Option<u16> {
    match converted {
        Some(v) => if u16::MIN <= v <= u16::MAX {
            Some(v as u16)
        } else {
            None::<u16>
        },
        None => None::<u16>,
    }
}

/// What `to_uint16` gives for a value with JSON text `value_text` that is the number
/// `converted` (none when it is no `u64`).
pub open spec fn spec_to_uint16(value_text: Seq<char>, converted: Option<u64>) -> Result<u16, Seq<char>> {
    ok_or_message(spec_try_to_uint16(converted), spec_cast_error_message(value_text, "UInt16"@))
}

/// `to_uint16`: the value (`converted`, the value as a `u64` if it is a number that is one)
/// as a `u16`, or an error that quotes the value's JSON text when it is none or out of
/// range.
pub fn to_uint16(value_text: &str, converted: Option<u64>) -> (r: Result<u16, String>)
    ensures
        message_view(r) == spec_to_uint16(value_text@, converted),
{
    let narrowed = match converted {
        Some(v) => cast_u64_to_u16(v),
        None => None,
    };
    cast_or_error(value_text, "UInt16", narrowed)
}

/// `try_to_uint16`: the value (`converted`, the value as a `u64` if it is a number that is
/// one) as a `u16`, or SQL NULL when it is none or out of range.
pub fn try_to_uint16(converted: Option<u64>) -> (r: Option<u16>)
    ensures
        r == spec_try_to_uint16(converted),
{
    match converted {
        Some(v) => cast_u64_to_u16(v),
        None => None,
    }
}

/// `try_to_uint16` differs from `to_uint16` only in giving SQL NULL where `to_uint16` gives an
/// error.
pub proof fn law_try_to_uint16_nulls_errors(value_text: Seq<char>, converted: Option<u64>)
    ensures
        forall|y: u16|
            spec_try_to_uint16(converted) == Some(y) <==> #[trigger] spec_to_uint16(value_text, converted)
                == Ok::<u16, Seq<char>>(y),
        spec_try_to_uint16(converted) is None <==> spec_to_uint16(value_text, converted) is Err,
{
}

/// `num_traits::cast` from `u64` to `u32`: the same value when `u32` holds it, nothing
/// otherwise.
#[verifier::external_body]
fn cast_u64_to_u32(v: u64) -> (r: Option<u32>)
    ensures
        r == (if u32::MIN <= v <= u32::MAX {
            Some(v as u32)
        } else {
            None::<u32>
        }),
{
    num_traits::cast::cast::<u64, u32>(v)
}

/// What `try_to_uint32` gives for a value that is the number `converted` (none when it is no
/// `u64`): the number as a `u32` when it fits.
pub open spec fn spec_try_to_uint32(converted: Option<u64>) -> Option<u32> {
    match converted {
        Some(v) => if u32::MIN <= v <= u32::MAX {
            Some(v as u32)
        } else {
            None::<u32>
        },
        None => None::<u32>,
    }
}

/// What `to_uint32` gives for a value with JSON text `value_text` that is the number
/// `converted` (none when it is no `u64`).
pub open spec fn spec_to_uint32(value_text: Seq<char>, converted: Option<u64>) -> Result<u32, Seq<char>> {
    ok_or_message(spec_try_to_uint32(converted), spec_cast_error_message(value_text, "UInt32"@))
}

/// `to_uint32`: the value (`converted`, the value as a `u64` if it is a number that is one)
/// as a `u32`, or an error that quotes the value's JSON text when it is none or out of
/// range.
pub fn to_uint32(value_text: &str, converted: Option<u64>) -> (r: Result<u32, String>)
    ensures
        message_view(r) == spec_to_uint32(value_text@, converted),
{
    let narrowed = match converted {
        Some(v) => cast_u64_to_u32(v),
        None => None,
    };
    cast_or_error(value_text, "UInt32", narrowed)
}

/// `try_to_uint32`: the value (`converted`, the value as a `u64` if it is a number that is
/// one) as a `u32`, or SQL NULL when it is none or out of range.
pub fn try_to_uint32(converted: Option<u64>) -> (r: Option<u32>)
    ensures
        r == spec_try_to_uint32(converted),
{
    match converted {
        Some(v) => cast_u64_to_u32(v),
        None => None,
    }
}

/// `try_to_uint32` differs from `to_uint32` only in giving SQL NULL where `to_uint32` gives an
/// error.
pub proof fn law_try_to_uint32_nulls_errors(value_text: Seq<char>, converted: Option<u64>)
    ensures
        forall|y: u32|
            spec_try_to_uint32(converted) == Some(y) <==> #[trigger] spec_to_uint32(value_text, converted)
                == Ok::<u32, Seq<char>>(y),
        spec_try_to_uint32(converted) is None <==> spec_to_uint32(value_text, converted) is Err,
{
}

/// `num_traits::cast` from `u64` to `u64`: the same value when `u64` holds it, nothing
/// otherwise.
#[verifier::external_body]
fn cast_u64_to_u64(v: u64) -> (r: Option<u64>)
    ensures
        r == (if u64::MIN <= v <= u64::MAX {
            Some(v as u64)
        } else {
            None::<u64>
        }),
{
    num_traits::cast::cast::<u64, u64>(v)
}

/// What `try_to_uint64` gives for a value that is the number `converted` (none when it is no
/// `u64`): the number as a `u64` when it fits.
pub open spec fn spec_try_to_uint64(converted: Option<u64>) -> Option<u64> {
    match converted {
        Some(v) => if u64::MIN <= v <= u64::MAX {
            Some(v as u64)
        } else {
            None::<u64>
        },
        None => None::<u64>,
    }
}

/// What `to_uint64` gives for a value with JSON text `value_text` that is the number
/// `converted` (none when it is no `u64`).
pub open spec fn spec_to_uint64(value_text: Seq<char>, converted: Option<u64>) -> Result<u64, Seq<char>> {
    ok_or_message(spec_try_to_uint64(converted), spec_cast_error_message(value_text, "UInt64"@))
}

/// `to_uint64`: the value (`converted`, the value as a `u64` if it is a number that is one)
/// as a `u64`, or an error that quotes the value's JSON text when it is none or out of
/// range.
pub fn to_uint64(value_text: &str, converted: Option<u64>) -> (r: Result<u64, String>)
    ensures
        message_view(r) == spec_to_uint64(value_text@, converted),
{
    let narrowed = match converted {
        Some(v) => cast_u64_to_u64(v),
        None => None,
    };
    cast_or_error(value_text, "UInt64", narrowed)
}

/// `try_to_uint64`: the value (`converted`, the value as a `u64` if it is a number that is
/// one) as a `u64`, or SQL NULL when it is none or out of range.
pub fn try_to_uint64(converted: Option<u64>) -> (r: Option<u64>)
    ensures
        r == spec_try_to_uint64(converted),
{
    match converted {
        Some(v) => cast_u64_to_u64(v),
        None => None,
    }
}

/// `try_to_uint64` differs from `to_uint64` only in giving SQL NULL where `to_uint64` gives an
/// error.
pub proof fn law_try_to_uint64_nulls_errors(value_text: Seq<char>, converted: Option<u64>)
    ensures
        forall|y: u64|
            spec_try_to_uint64(converted) == Some(y) <==> #[trigger] spec_to_uint64(value_text, converted)
                == Ok::<u64, Seq<char>>(y),
        spec_try_to_uint64(converted) is None <==> spec_to_uint64(value_text, converted) is Err,
{
}

/// A function that turns a missing value into an error differs from the function that
/// gives SQL NULL for it only there: `to_boolean`/`try_to_boolean`, `to_string`/
/// `try_to_string`, `to_timestamp`/`try_to_timestamp` (`cast_or_error` and the conversion
/// itself), and `to_date`/`try_to_date`.
pub proof fn law_cast_try_form_nulls_errors<T>(converted: Option<T>, message: Seq<char>)
    ensures
        forall|y: T| converted == Some(y) <==> #[trigger] ok_or_message(converted, message) == Ok::<
            T,
            Seq<char>,
        >(y),
        converted is None <==> ok_or_message(converted, message) is Err,
{
}

/// `try_parse_json` differs from `parse_json` on the same text and parse outcome only in
/// giving SQL NULL where `parse_json` gives an error.
pub proof fn law_try_parse_json_nulls_errors(s: Seq<u8>, parsed: Result<Seq<u8>, Seq<char>>)
    ensures
        forall|b: Seq<u8>|
            spec_try_parse_json_text(s, parsed.ok()) == Some(b) <==> #[trigger] spec_parse_json_text(
                s,
                parsed,
            ) == Ok::<Seq<u8>, Seq<char>>(b),
        spec_try_parse_json_text(s, parsed.ok()) is None <==> spec_parse_json_text(s, parsed) is Err,
{
}


/// The JSON scalar that `parse_json` makes of a Boolean or integer column value: a
/// Boolean becomes the JSON boolean, signed integers 64-bit signed numbers, unsigned ones
/// 64-bit unsigned numbers.
#[derive(Debug, Clone, Copy, PartialEq, Eq, Structural)]
pub enum JsonScalar {
    Bool(bool),
    Int64(i64),
    UInt64(u64),
}

/// `num_traits::cast` from `i8` to `i64`: always the same value, as `i64` holds every
/// `i8`.
#[verifier::external_body]
fn cast_i8_to_i64_widening(v: i8) -> (r: Option<i64>)
    ensures
        r == Some(v as i64),
{
    num_traits::cast::cast::<i8, i64>(v)
}

/// `parse_json` and `try_parse_json` on a `int8` column value: the JSON number `Int64` of
/// the same value (the cast to `i64` cannot fail).
pub fn json_number_from_int8(v: i8) -> (r: JsonScalar)
    ensures
        r == JsonScalar::Int64(v as i64),
{
    JsonScalar::Int64(cast_i8_to_i64_widening(v).unwrap())
}

/// `num_traits::cast` from `i16` to `i64`: always the same value, as `i64` holds every
/// `i16`.
#[verifier::external_body]
fn cast_i16_to_i64_widening(v: i16) -> (r: Option<i64>)
    ensures
        r == Some(v as i64),
{
    num_traits::cast::cast::<i16, i64>(v)
}

/// `parse_json` and `try_parse_json` on a `int16` column value: the JSON number `Int64` of
/// the same value (the cast to `i64` cannot fail).
pub fn json_number_from_int16(v: i16) -> (r: JsonScalar)
    ensures
        r == JsonScalar::Int64(v as i64),
{
    JsonScalar::Int64(cast_i16_to_i64_widening(v).unwrap())
}

/// `num_traits::cast` from `i32` to `i64`: always the same value, as `i64` holds every
/// `i32`.
#[verifier::external_body]
fn cast_i32_to_i64_widening(v: i32) -> (r: Option<i64>)
    ensures
        r == Some(v as i64),
{
    num_traits::cast::cast::<i32, i64>(v)
}

/// `parse_json` and `try_parse_json` on a `int32` column value: the JSON number `Int64` of
/// the same value (the cast to `i64` cannot fail).
pub fn json_number_from_int32(v: i32) -> (r: JsonScalar)
    ensures
        r == JsonScalar::Int64(v as i64),
{
    JsonScalar::Int64(cast_i32_to_i64_widening(v).unwrap())
}

/// `parse_json` and `try_parse_json` on a `int64` column value: the JSON number `Int64` of
/// the same value (the cast to `i64` cannot fail).
pub fn json_number_from_int64(v: i64) -> (r: JsonScalar)
    ensures
        r == JsonScalar::Int64(v as i64),
{
    JsonScalar::Int64(cast_i64_to_i64(v).unwrap())
}

/// `num_traits::cast` from `u8` to `u64`: always the same value, as `u64` holds every
/// `u8`.
#[verifier::external_body]
fn cast_u8_to_u64_widening(v: u8) -> (r: Option<u64>)
    ensures
        r == Some(v as u64),
{
    num_traits::cast::cast::<u8, u64>(v)
}

/// `parse_json` and `try_parse_json` on a `uint8` column value: the JSON number `UInt64` of
/// the same value (the cast to `u64` cannot fail).
pub fn json_number_from_uint8(v: u8) -> (r: JsonScalar)
    ensures
        r == JsonScalar::UInt64(v as u64),
{
    JsonScalar::UInt64(cast_u8_to_u64_widening(v).unwrap())
}

/// `num_traits::cast` from `u16` to `u64`: always the same value, as `u64` holds every
/// `u16`.
#[verifier::external_body]
fn cast_u16_to_u64_widening(v: u16) -> (r: Option<u64>)
    ensures
        r == Some(v as u64),
{
    num_traits::cast::cast::<u16, u64>(v)
}

/// `parse_json` and `try_parse_json` on a `uint16` column value: the JSON number `UInt64` of
/// the same value (the cast to `u64` cannot fail).
pub fn json_number_from_uint16(v: u16) -> (r: JsonScalar)
    ensures
        r == JsonScalar::UInt64(v as u64),
{
    JsonScalar::UInt64(cast_u16_to_u64_widening(v).unwrap())
}

/// `num_traits::cast` from `u32` to `u64`: always the same value, as `u64` holds every
/// `u32`.
#[verifier::external_body]
fn cast_u32_to_u64_widening(v: u32) -> (r: Option<u64>)
    ensures
        r == Some(v as u64),
{
    num_traits::cast::cast::<u32, u64>(v)
}

/// `parse_json` and `try_parse_json` on a `uint32` column value: the JSON number `UInt64` of
/// the same value (the cast to `u64` cannot fail).
pub fn json_number_from_uint32(v: u32) -> (r: JsonScalar)
    ensures
        r == JsonScalar::UInt64(v as u64),
{
    JsonScalar::UInt64(cast_u32_to_u64_widening(v).unwrap())
}

/// `parse_json` and `try_parse_json` on a `uint64` column value: the JSON number `UInt64` of
/// the same value (the cast to `u64` cannot fail).
pub fn json_number_from_uint64(v: u64) -> (r: JsonScalar)
    ensures
        r == JsonScalar::UInt64(v as u64),
{
    JsonScalar::UInt64(cast_u64_to_u64(v).unwrap())
}


/// `parse_json` and `try_parse_json` on a Boolean column value: the JSON boolean of the same
/// value.
pub fn json_scalar_from_bool(b: bool) -> (r: JsonScalar)
    ensures
        r == JsonScalar::Bool(b),
{
    if b {
        JsonScalar::Bool(true)
    } else {
        JsonScalar::Bool(false)
    }
}

/// `try_parse_json` on a Boolean or numeric column value: the JSON scalar made of it, never
/// SQL NULL.
pub fn try_parse_json_scalar(v: JsonScalar) -> (r: Option<JsonScalar>)
    ensures
        r == Some(v),
{
    Some(v)
}

/// `check_json` on a Boolean or numeric column value: always SQL NULL, as such a value is
/// always valid JSON.
pub fn check_json_scalar<T>(v: T) -> (r: Option<String>)
    ensures
        r is None,
{
    None
}

/// The column types of the original type system.
#[derive(Debug, Clone, Copy, PartialEq, Eq, Structural)]
pub enum ScalarType {
    Boolean,
    Date,
    Timestamp,
    String,
    UInt8,
    UInt16,
    UInt32,
    UInt64,
    Int8,
    Int16,
    Int32,
    Int64,
    Float32,
    Float64,
    Variant,
}

/// The types that the comparison functions may cast to `Variant` when the other argument is
/// a variant, each paired with `Variant`.
pub open spec fn spec_comparison_cast_signatures() -> Seq<(ScalarType, ScalarType)> {
    seq![
        (ScalarType::Boolean, ScalarType::Variant),
        (ScalarType::Date, ScalarType::Variant),
        (ScalarType::Timestamp, ScalarType::Variant),
        (ScalarType::String, ScalarType::Variant),
        (ScalarType::UInt8, ScalarType::Variant),
        (ScalarType::UInt16, ScalarType::Variant),
        (ScalarType::UInt32, ScalarType::Variant),
        (ScalarType::UInt64, ScalarType::Variant),
        (ScalarType::Int8, ScalarType::Variant),
        (ScalarType::Int16, ScalarType::Variant),
        (ScalarType::Int32, ScalarType::Variant),
        (ScalarType::Int64, ScalarType::Variant),
        (ScalarType::Float32, ScalarType::Variant),
        (ScalarType::Float64, ScalarType::Variant),
    ]
}

/// The automatic-cast signatures registered for every comparison function: each scalar type
/// that may be compared with a variant, paired with `Variant`.
pub fn comparison_cast_signatures() -> (r: Vec<(ScalarType, ScalarType)>)
    ensures
        r@ == spec_comparison_cast_signatures(),
{
    let r = vec![
        (ScalarType::Boolean, ScalarType::Variant),
        (ScalarType::Date, ScalarType::Variant),
        (ScalarType::Timestamp, ScalarType::Variant),
        (ScalarType::String, ScalarType::Variant),
        (ScalarType::UInt8, ScalarType::Variant),
        (ScalarType::UInt16, ScalarType::Variant),
        (ScalarType::UInt32, ScalarType::Variant),
        (ScalarType::UInt64, ScalarType::Variant),
        (ScalarType::Int8, ScalarType::Variant),
        (ScalarType::Int16, ScalarType::Variant),
        (ScalarType::Int32, ScalarType::Variant),
        (ScalarType::Int64, ScalarType::Variant),
        (ScalarType::Float32, ScalarType::Variant),
        (ScalarType::Float64, ScalarType::Variant),
    ];
    assert(r@ =~= spec_comparison_cast_signatures());
    r
}

/// The automatic-cast signatures registered for every pattern-matching function: a string
/// may be matched against a variant.
pub fn match_cast_signatures() -> (r: Vec<(ScalarType, ScalarType)>)
    ensures
        r@ == seq![(ScalarType::String, ScalarType::Variant)],
{
    let r = vec![(ScalarType::String, ScalarType::Variant)];
    assert(r@ =~= seq![(ScalarType::String, ScalarType::Variant)]);
    r
}


/// `to_int8` and `try_to_int8` accept exactly the numbers that `i8` holds, and keep their
/// value: every such number casts, every other number (and every non-number) gives the
/// error or SQL NULL.
pub proof fn law_int8_casts_exactly_its_range(value_text: Seq<char>, v: i64)
    ensures
        i8::MIN <= v <= i8::MAX ==> spec_try_to_int8(Some(v)) == Some(v as i8)
            && spec_to_int8(value_text, Some(v)) == Ok::<i8, Seq<char>>(v as i8),
        !(i8::MIN <= v <= i8::MAX) ==> spec_try_to_int8(Some(v)) is None && spec_to_int8(
            value_text,
            Some(v),
        ) is Err,
        forall|y: i8| spec_try_to_int8(Some(v)) == Some(y) ==> y as i64 == v,
        spec_try_to_int8(None) is None,
        spec_to_int8(value_text, None) is Err,
{
}

/// `to_int16` and `try_to_int16` accept exactly the numbers that `i16` holds, and keep their
/// value: every such number casts, every other number (and every non-number) gives the
/// error or SQL NULL.
pub proof fn law_int16_casts_exactly_its_range(value_text: Seq<char>, v: i64)
    ensures
        i16::MIN <= v <= i16::MAX ==> spec_try_to_int16(Some(v)) == Some(v as i16)
            && spec_to_int16(value_text, Some(v)) == Ok::<i16, Seq<char>>(v as i16),
        !(i16::MIN <= v <= i16::MAX) ==> spec_try_to_int16(Some(v)) is None && spec_to_int16(
            value_text,
            Some(v),
        ) is Err,
        forall|y: i16| spec_try_to_int16(Some(v)) == Some(y) ==> y as i64 == v,
        spec_try_to_int16(None) is None,
        spec_to_int16(value_text, None) is Err,
{
}

/// `to_int32` and `try_to_int32` accept exactly the numbers that `i32` holds, and keep their
/// value: every such number casts, every other number (and every non-number) gives the
/// error or SQL NULL.
pub proof fn law_int32_casts_exactly_its_range(value_text: Seq<char>, v: i64)
    ensures
        i32::MIN <= v <= i32::MAX ==> spec_try_to_int32(Some(v)) == Some(v as i32)
            && spec_to_int32(value_text, Some(v)) == Ok::<i32, Seq<char>>(v as i32),
        !(i32::MIN <= v <= i32::MAX) ==> spec_try_to_int32(Some(v)) is None && spec_to_int32(
            value_text,
            Some(v),
        ) is Err,
        forall|y: i32| spec_try_to_int32(Some(v)) == Some(y) ==> y as i64 == v,
        spec_try_to_int32(None) is None,
        spec_to_int32(value_text, None) is Err,
{
}

/// `to_int64` and `try_to_int64` accept exactly the numbers that `i64` holds, and keep their
/// value: every such number casts, every other number (and every non-number) gives the
/// error or SQL NULL.
pub proof fn law_int64_casts_exactly_its_range(value_text: Seq<char>, v: i64)
    ensures
        i64::MIN <= v <= i64::MAX ==> spec_try_to_int64(Some(v)) == Some(v as i64)
            && spec_to_int64(value_text, Some(v)) == Ok::<i64, Seq<char>>(v as i64),
        !(i64::MIN <= v <= i64::MAX) ==> spec_try_to_int64(Some(v)) is None && spec_to_int64(
            value_text,
            Some(v),
        ) is Err,
        forall|y: i64| spec_try_to_int64(Some(v)) == Some(y) ==> y as i64 == v,
        spec_try_to_int64(None) is None,
        spec_to_int64(value_text, None) is Err,
{
}

/// `to_uint8` and `try_to_uint8` accept exactly the numbers that `u8` holds, and keep their
/// value: every such number casts, every other number (and every non-number) gives the
/// error or SQL NULL.
pub proof fn law_uint8_casts_exactly_its_range(value_text: Seq<char>, v: u64)
    ensures
        u8::MIN <= v <= u8::MAX ==> spec_try_to_uint8(Some(v)) == Some(v as u8)
            && spec_to_uint8(value_text, Some(v)) == Ok::<u8, Seq<char>>(v as u8),
        !(u8::MIN <= v <= u8::MAX) ==> spec_try_to_uint8(Some(v)) is None && spec_to_uint8(
            value_text,
            Some(v),
        ) is Err,
        forall|y: u8| spec_try_to_uint8(Some(v)) == Some(y) ==> y as u64 == v,
        spec_try_to_uint8(None) is None,
        spec_to_uint8(value_text, None) is Err,
{
}

/// `to_uint16` and `try_to_uint16` accept exactly the numbers that `u16` holds, and keep their
/// value: every such number casts, every other number (and every non-number) gives the
/// error or SQL NULL.
pub proof fn law_uint16_casts_exactly_its_range(value_text: Seq<char>, v: u64)
    ensures
        u16::MIN <= v <= u16::MAX ==> spec_try_to_uint16(Some(v)) == Some(v as u16)
            && spec_to_uint16(value_text, Some(v)) == Ok::<u16, Seq<char>>(v as u16),
        !(u16::MIN <= v <= u16::MAX) ==> spec_try_to_uint16(Some(v)) is None && spec_to_uint16(
            value_text,
            Some(v),
        ) is Err,
        forall|y: u16| spec_try_to_uint16(Some(v)) == Some(y) ==> y as u64 == v,
        spec_try_to_uint16(None) is None,
        spec_to_uint16(value_text, None) is Err,
{
}

/// `to_uint32` and `try_to_uint32` accept exactly the numbers that `u32` holds, and keep their
/// value: every such number casts, every other number (and every non-number) gives the
/// error or SQL NULL.
pub proof fn law_uint32_casts_exactly_its_range(value_text: Seq<char>, v: u64)
    ensures
        u32::MIN <= v <= u32::MAX ==> spec_try_to_uint32(Some(v)) == Some(v as u32)
            && spec_to_uint32(value_text, Some(v)) == Ok::<u32, Seq<char>>(v as u32),
        !(u32::MIN <= v <= u32::MAX) ==> spec_try_to_uint32(Some(v)) is None && spec_to_uint32(
            value_text,
            Some(v),
        ) is Err,
        forall|y: u32| spec_try_to_uint32(Some(v)) == Some(y) ==> y as u64 == v,
        spec_try_to_uint32(None) is None,
        spec_to_uint32(value_text, None) is Err,
{
}

/// `to_uint64` and `try_to_uint64` accept exactly the numbers that `u64` holds, and keep their
/// value: every such number casts, every other number (and every non-number) gives the
/// error or SQL NULL.
pub proof fn law_uint64_casts_exactly_its_range(value_text: Seq<char>, v: u64)
    ensures
        u64::MIN <= v <= u64::MAX ==> spec_try_to_uint64(Some(v)) == Some(v as u64)
            && spec_to_uint64(value_text, Some(v)) == Ok::<u64, Seq<char>>(v as u64),
        !(u64::MIN <= v <= u64::MAX) ==> spec_try_to_uint64(Some(v)) is None && spec_to_uint64(
            value_text,
            Some(v),
        ) is Err,
        forall|y: u64| spec_try_to_uint64(Some(v)) == Some(y) ==> y as u64 == v,
        spec_try_to_uint64(None) is None,
        spec_to_uint64(value_text, None) is Err,
{
}

/// Only blank text is JSON `null`: when the trimmed text is non-empty, `parse_json` and
/// `try_parse_json` give what parsing gives (white space around a parsable text changes
/// nothing), and an unparsable text is an error or SQL NULL; when it is empty, both give the
/// JSONB `null`, whatever parsing gives.
pub proof fn law_only_blank_text_is_json_null(
    s: Seq<u8>,
    parsed: Seq<u8>,
    error: Seq<char>,
    outcome: Result<Seq<u8>, Seq<char>>,
    try_outcome: Option<Seq<u8>>,
)
    ensures
        bstr_trim(s).len() > 0 ==> spec_parse_json_text(s, Ok(parsed)) == Ok::<
            Seq<u8>,
            Seq<char>,
        >(parsed) && spec_try_parse_json_text(s, Some(parsed)) == Some(parsed)
            && spec_parse_json_text(s, Err(error)) is Err && spec_try_parse_json_text(
            s,
            None,
        ) is None,
        bstr_trim(s).len() == 0 ==> spec_parse_json_text(s, outcome) == Ok::<
            Seq<u8>,
            Seq<char>,
        >(seq![0x20u8, 0x00u8, 0x00u8, 0x00u8, 0x00u8, 0x00u8, 0x00u8, 0x00u8])
            && spec_try_parse_json_text(s, try_outcome) == Some(
            seq![0x20u8, 0x00u8, 0x00u8, 0x00u8, 0x00u8, 0x00u8, 0x00u8, 0x00u8],
        ),
{
}

} // verus!
