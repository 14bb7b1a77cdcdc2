//! Readers of the binary wire format.
//!
//! Each reader looks at the field that starts at offset `pos` of `input` and
//! returns the value with the offset after the field, or the failure. No
//! reader panics, whatever the input holds, and none allocates more than the
//! field it returns.

use crate::error::{Error, ErrorView};
use crate::text::append_decimal;
use crate::wire::{
    end_of_input, le32_at, parse_bool, parse_bytes, parse_char, parse_tag, parse_text, text_stop,
};
use vstd::prelude::*;
use vstd::slice::{slice_subrange, slice_to_vec};
use vstd::string::StringExecFns;

verus! {

/// `char::from_u32` gives the character with the given scalar value, and
/// `None` for a surrogate and for a number beyond the last code point.
pub assume_specification[ char::from_u32 ](i: u32) -> (c: Option<char>)
    ensures
        c == if i <= 0xD7FF || 0xE000 <= i <= 0x10FFFF {
            Some(i as char)
        } else {
            None::<char>
        },
;

/// The mathematical reading of a reader's result.
pub open spec fn decoded<T>(r: Result<(T, usize), Error>) -> Result<(T, int), ErrorView> {
    match r {
        Ok((value, next)) => Ok((value, next as int)),
        Err(e) => Err(e@),
    }
}

/// The mathematical reading of the result of a reader that returns bytes.
pub open spec fn decoded_run(r: Result<(Vec<u8>, usize), Error>) -> Result<
    (Seq<u8>, int),
    ErrorView,
> {
    match r {
        Ok((value, next)) => Ok((value@, next as int)),
        Err(e) => Err(e@),
    }
}

/// The failure for an input that ends inside the field that starts at `pos`.
pub fn end_of_input_error(pos: usize) -> (e: Error)
    ensures
        e@ == end_of_input(pos as int),
{
    let mut message = String::from_str("unexpected end of input. Pos: ");
    append_decimal(&mut message, pos as u64);
    Error::Custom(message)
}

/// The number held in the four bytes at `pos`, least significant first.
fn le32(input: &[u8], pos: usize) -> (n: u32)
    requires
        pos + 4 <= input@.len(),
    ensures
        n == le32_at(input@, pos as int),
{
    let b0 = input[pos] as u32;
    let b1 = input[pos + 1] as u32;
    let b2 = input[pos + 2] as u32;
    let b3 = input[pos + 3] as u32;
    b0 + 256 * b1 + 65536 * b2 + 16777216 * b3
}

/// Whether fewer than `width` bytes of `input` are left from `pos` on.
fn ends_within(input: &[u8], pos: usize, width: usize) -> (short: bool)
    ensures
        short == (pos + width > input@.len()),
        !short ==> pos + width <= usize::MAX,
{
    pos > input.len() || input.len() - pos < width
}

/// Reads a boolean: the byte `0` is `false`, the byte `1` is `true`, and any
/// other byte is refused.
pub fn decode_bool(input: &[u8], pos: usize) -> (r: Result<(bool, usize), Error>)
    ensures
        decoded(r) == parse_bool(input@, pos as int),
{
    if pos >= input.len() {
        return Err(end_of_input_error(pos));
    }
    let byte = input[pos];
    if byte == 0 {
        Ok((false, pos + 1))
    } else if byte == 1 {
        Ok((true, pos + 1))
    } else {
        Err(Error::InvalidBoolEncoding(byte, pos))
    }
}

/// Reads the tag of a union with `variants` variants, numbered from `0`. A
/// byte that names none of them is refused.
pub fn decode_tag(input: &[u8], pos: usize, variants: u32) -> (r: Result<(u8, usize), Error>)
    ensures
        decoded(r) == parse_tag(input@, pos as int, variants as int),
{
    if pos >= input.len() {
        return Err(end_of_input_error(pos));
    }
    let tag = input[pos];
    if (tag as u32) < variants {
        Ok((tag, pos + 1))
    } else {
        Err(Error::InvalidTagEncoding(tag, pos))
    }
}

/// Reads a character. A number that is no Unicode scalar value is refused.
pub fn decode_char(input: &[u8], pos: usize) -> (r: Result<(char, usize), Error>)
    ensures
        decoded(r) == parse_char(input@, pos as int),
{
    if ends_within(input, pos, 4) {
        return Err(end_of_input_error(pos));
    }
    match char::from_u32(le32(input, pos)) {
        Some(c) => Ok((c, pos + 4)),
        None => Err(Error::InvalidCharEncoding(pos)),
    }
}

/// Reads a text of at most `max_len` bytes. The text ends before its
/// terminator byte; where the input ends, or the text grows beyond `max_len`
/// bytes, before a terminator is found, the failure names the offset at which
/// the terminator was due.
pub fn decode_text(input: &[u8], pos: usize, max_len: usize) -> (r: Result<
    (Vec<u8>, usize),
    Error,
>)
    ensures
        decoded_run(r) == parse_text(input@, pos as int, max_len as nat),
{
    let mut i = pos;
    while i < input.len() && input[i] != 0 && i - pos < max_len
        invariant
            pos <= i,
            i - pos <= max_len,
            text_stop(input@, pos as int, max_len as nat) == text_stop(
                input@,
                i as int,
                (max_len - (i - pos)) as nat,
            ),
        decreases input@.len() - i,
    {
        i += 1;
    }
    if i < input.len() && input[i] == 0 {
        Ok((slice_to_vec(slice_subrange(input, pos, i)), i + 1))
    } else {
        Err(Error::StringNotNullTerminated(i))
    }
}

/// Reads a run of bytes of at most `max` bytes. The declared length is
/// checked against `max` and against what is left of the input before any
/// byte is copied.
pub fn decode_bytes(input: &[u8], pos: usize, max: usize) -> (r: Result<(Vec<u8>, usize), Error>)
    ensures
        decoded_run(r) == parse_bytes(input@, pos as int, max as int),
{
    if ends_within(input, pos, 4) {
        return Err(end_of_input_error(pos));
    }
    let declared = le32(input, pos) as usize;
    if declared > max {
        return Err(Error::BytesTooBig(pos));
    }
    let start = pos + 4;
    if ends_within(input, start, declared) {
        return Err(end_of_input_error(pos));
    }
    let end = start + declared;
    Ok((slice_to_vec(slice_subrange(input, start, end)), end))
}

/// Reading a value of unknown type is not possible: the format does not
/// describe itself.
pub fn decode_any(pos: usize) -> (r: Result<(), Error>)
    ensures
        r == Err::<(), Error>(Error::DeserializeAnyNotSupported(pos)),
{
    Err(Error::DeserializeAnyNotSupported(pos))
}

/// Reading an associative container is not possible: the format has none.
pub fn decode_map(pos: usize) -> (r: Result<(), Error>)
    ensures
        r == Err::<(), Error>(Error::DeserializeMapNotSupported(pos)),
{
    Err(Error::DeserializeMapNotSupported(pos))
}

/// Reading the name of a field or variant is not possible: the format holds
/// no names.
pub fn decode_identifier(pos: usize) -> (r: Result<(), Error>)
    ensures
        r == Err::<(), Error>(Error::DeserializeIdentifierNotSupported(pos)),
{
    Err(Error::DeserializeIdentifierNotSupported(pos))
}

/// Skipping a field of unknown type is not possible: its length cannot be
/// known.
pub fn decode_ignored_any(pos: usize) -> (r: Result<(), Error>)
    ensures
        r == Err::<(), Error>(Error::DeserializeIgnoredAnyNotSupported(pos)),
{
    Err(Error::DeserializeIgnoredAnyNotSupported(pos))
}

} // verus!
