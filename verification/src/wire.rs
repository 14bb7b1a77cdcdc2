//! The binary wire format, as mathematics.
//!
//! A message is a run of fields laid end to end. The format is not
//! self-describing: a field can only be read by a reader that knows its type.
//!
//! | field     | bytes                                                        |
//! |-----------|--------------------------------------------------------------|
//! | boolean   | one byte, `0` or `1`                                         |
//! | tag       | one byte, below the number of variants                       |
//! | character | four bytes, a Unicode scalar value, least significant first  |
//! | text      | its bytes, none of them `0`, then one terminator byte `0`    |
//! | bytes     | the length in four bytes, least significant first, then them |
//!
//! Each `parse_*` function says what a reader finds at offset `pos` of
//! `input`: the value together with the offset after the field, or the
//! failure. A failure names the offset where the field starts; an unterminated
//! text names the offset where its terminator was due.

use crate::error::ErrorView;
use crate::text::decimal;
use vstd::prelude::*;

verus! {

/// The message of the failure raised where `input` ends inside a field.
pub open spec fn end_of_input_text(pos: int) -> Seq<char> {
    "unexpected end of input. Pos: "@ + decimal(pos as nat)
}

/// The failure raised where `input` ends inside the field that starts at
/// `pos`.
pub open spec fn end_of_input(pos: int) -> ErrorView {
    ErrorView::Custom(end_of_input_text(pos))
}

/// The message of the failure raised for a text that holds the terminator
/// byte and so cannot be written.
pub open spec fn terminator_in_text_text(pos: int) -> Seq<char> {
    "text holds a terminator byte. Pos: "@ + decimal(pos as nat)
}

/// The failure raised for a text that holds the terminator byte. `pos` is the
/// offset at which the text would have started.
pub open spec fn terminator_in_text(pos: int) -> ErrorView {
    ErrorView::Custom(terminator_in_text_text(pos))
}

/// The number held least significant byte first in the four bytes at `pos`.
pub open spec fn le32_at(input: Seq<u8>, pos: int) -> int {
    input[pos] + 256 * input[pos + 1] + 65536 * input[pos + 2] + 16777216 * input[pos + 3]
}

/// The four bytes of `n`, least significant first.
pub open spec fn le32_bytes(n: u32) -> Seq<u8> {
    seq![
        (n % 256) as u8,
        (n / 256 % 256) as u8,
        (n / 65536 % 256) as u8,
        (n / 16777216) as u8,
    ]
}

/// Whether `n` is a Unicode scalar value.
pub open spec fn is_scalar(n: int) -> bool {
    0 <= n <= 0xD7FF || 0xE000 <= n <= 0x10FFFF
}

/// The bytes of a boolean field.
pub open spec fn bool_bytes(v: bool) -> Seq<u8> {
    seq![if v { 1u8 } else { 0u8 }]
}

/// The bytes of a tag field.
pub open spec fn tag_bytes(tag: u8) -> Seq<u8> {
    seq![tag]
}

/// The bytes of a character field.
pub open spec fn char_bytes(c: char) -> Seq<u8> {
    le32_bytes(c as u32)
}

/// The bytes of a text field.
pub open spec fn text_bytes(text: Seq<u8>) -> Seq<u8> {
    text.push(0u8)
}

/// The bytes of a bytes field.
pub open spec fn bytes_bytes(bytes: Seq<u8>) -> Seq<u8> {
    le32_bytes(bytes.len() as u32) + bytes
}

/// What a reader of a boolean finds at `pos`.
pub open spec fn parse_bool(input: Seq<u8>, pos: int) -> Result<(bool, int), ErrorView> {
    if pos >= input.len() {
        Err(end_of_input(pos))
    } else if input[pos] == 0 {
        Ok((false, pos + 1))
    } else if input[pos] == 1 {
        Ok((true, pos + 1))
    } else {
        Err(ErrorView::InvalidBoolEncoding(input[pos], pos))
    }
}

/// What a reader of a tag with `variants` known variants, numbered from `0`,
/// finds at `pos`.
pub open spec fn parse_tag(input: Seq<u8>, pos: int, variants: int) -> Result<(u8, int), ErrorView> {
    if pos >= input.len() {
        Err(end_of_input(pos))
    } else if input[pos] < variants {
        Ok((input[pos], pos + 1))
    } else {
        Err(ErrorView::InvalidTagEncoding(input[pos], pos))
    }
}

/// What a reader of a character finds at `pos`.
pub open spec fn parse_char(input: Seq<u8>, pos: int) -> Result<(char, int), ErrorView> {
    if pos + 4 > input.len() {
        Err(end_of_input(pos))
    } else if is_scalar(le32_at(input, pos)) {
        Ok((le32_at(input, pos) as char, pos + 4))
    } else {
        Err(ErrorView::InvalidCharEncoding(pos))
    }
}

/// Where the search for the terminator of a text stops: the first offset from
/// `at` on that holds the terminator, lies past the end of `input`, or has
/// `budget` bytes of text before it.
pub open spec fn text_stop(input: Seq<u8>, at: int, budget: nat) -> int
    decreases budget,
{
    if at >= input.len() || input[at] == 0 || budget == 0 {
        at
    } else {
        text_stop(input, at + 1, (budget - 1) as nat)
    }
}

/// What a reader of a text of at most `max_len` bytes finds at `pos`.
pub open spec fn parse_text(input: Seq<u8>, pos: int, max_len: nat) -> Result<
    (Seq<u8>, int),
    ErrorView,
> {
    let stop = text_stop(input, pos, max_len);
    if stop < input.len() && input[stop] == 0 {
        Ok((input.subrange(pos, stop), stop + 1))
    } else {
        Err(ErrorView::StringNotNullTerminated(stop))
    }
}

/// What a reader of a bytes field finds at `pos`, where `max` is the longest
/// run of bytes that the reader accepts.
pub open spec fn parse_bytes(input: Seq<u8>, pos: int, max: int) -> Result<
    (Seq<u8>, int),
    ErrorView,
> {
    if pos + 4 > input.len() {
        Err(end_of_input(pos))
    } else if le32_at(input, pos) > max {
        Err(ErrorView::BytesTooBig(pos))
    } else if pos + 4 + le32_at(input, pos) > input.len() {
        Err(end_of_input(pos))
    } else {
        Ok((input.subrange(pos + 4, pos + 4 + le32_at(input, pos)), pos + 4 + le32_at(input, pos)))
    }
}

/// Whether a text can be written: it holds no terminator byte.
pub open spec fn text_encodable(text: Seq<u8>) -> bool {
    forall|i: int| 0 <= i < text.len() ==> text[i] != 0
}

/// Whether a run of bytes can be written for a reader that accepts at most
/// `max` of them: its length fits the reader's bound and the length field.
pub open spec fn bytes_encodable(bytes: Seq<u8>, max: int) -> bool {
    bytes.len() <= max && bytes.len() <= u32::MAX
}

/// Whether offset `j` lies inside `input` and holds a byte of text.
pub open spec fn holds_text(input: Seq<u8>, j: int) -> bool {
    0 <= j < input.len() && input[j] != 0
}

/// The search for a terminator stops at the first offset that ends it:
/// every offset before the stop lies inside `input`, holds a byte of text and
/// is within the budget.
pub proof fn text_stop_is_first(input: Seq<u8>, at: int, budget: nat)
    requires
        0 <= at,
    ensures
        at <= text_stop(input, at, budget) <= at + budget,
        forall|j: int|
            at <= j < text_stop(input, at, budget) ==> holds_text(input, j),
        ({
            let stop = text_stop(input, at, budget);
            stop >= input.len() || input[stop] == 0 || stop == at + budget
        }),
    decreases budget,
{
    if !(at >= input.len() || input[at] == 0 || budget == 0) {
        text_stop_is_first(input, at + 1, (budget - 1) as nat);
    }
}

/// Four bytes written least significant first hold the number they were
/// written from.
pub proof fn le32_round_trip(before: Seq<u8>, n: u32, after: Seq<u8>)
    ensures
        le32_at(before + le32_bytes(n) + after, before.len() as int) == n,
{
    let input = before + le32_bytes(n) + after;
    let p = before.len() as int;
    assert(input[p] == le32_bytes(n)[0]);
    assert(input[p + 1] == le32_bytes(n)[1]);
    assert(input[p + 2] == le32_bytes(n)[2]);
    assert(input[p + 3] == le32_bytes(n)[3]);
}

/// Reading a boolean where one was written gives it back, whatever stands
/// before and after it.
pub proof fn bool_round_trip(before: Seq<u8>, v: bool, after: Seq<u8>)
    ensures
        parse_bool(before + bool_bytes(v) + after, before.len() as int) == Ok::<
            (bool, int),
            ErrorView,
        >((v, before.len() as int + 1)),
{
    let input = before + bool_bytes(v) + after;
    assert(input[before.len() as int] == bool_bytes(v)[0]);
}

/// Reading a tag where a known one was written gives it back.
pub proof fn tag_round_trip(before: Seq<u8>, tag: u8, variants: int, after: Seq<u8>)
    requires
        tag < variants,
    ensures
        parse_tag(before + tag_bytes(tag) + after, before.len() as int, variants) == Ok::<
            (u8, int),
            ErrorView,
        >((tag, before.len() as int + 1)),
{
    let input = before + tag_bytes(tag) + after;
    assert(input[before.len() as int] == tag_bytes(tag)[0]);
}

/// Reading a character where one was written gives it back.
pub proof fn char_round_trip(before: Seq<u8>, c: char, after: Seq<u8>)
    ensures
        parse_char(before + char_bytes(c) + after, before.len() as int) == Ok::<
            (char, int),
            ErrorView,
        >((c, before.len() as int + 4)),
{
    le32_round_trip(before, c as u32, after);
}

/// Reading a text where one was written gives it back, provided that it could
/// be written and is no longer than the reader accepts.
pub proof fn text_round_trip(before: Seq<u8>, text: Seq<u8>, max_len: nat, after: Seq<u8>)
    requires
        text_encodable(text),
        text.len() <= max_len,
    ensures
        parse_text(before + text_bytes(text) + after, before.len() as int, max_len) == Ok::<
            (Seq<u8>, int),
            ErrorView,
        >((text, before.len() as int + text.len() + 1)),
{
    let input = before + text_bytes(text) + after;
    let p = before.len() as int;
    let end = p + text.len();
    let stop = text_stop(input, p, max_len);
    text_stop_is_first(input, p, max_len);
    assert(input[end] == 0);
    if stop < end {
        assert(input[stop] == text[stop - p]);
    }
    if stop > end {
        assert(holds_text(input, end));
    }
    assert(stop == end);
    assert(input.subrange(p, end) =~= text);
}

/// Reading a run of bytes where one was written gives it back, provided that
/// it could be written for this reader.
pub proof fn bytes_round_trip(before: Seq<u8>, bytes: Seq<u8>, max: int, after: Seq<u8>)
    requires
        bytes_encodable(bytes, max),
    ensures
        parse_bytes(before + bytes_bytes(bytes) + after, before.len() as int, max) == Ok::<
            (Seq<u8>, int),
            ErrorView,
        >((bytes, before.len() as int + 4 + bytes.len())),
{
    let input = before + bytes_bytes(bytes) + after;
    let p = before.len() as int;
    assert(input =~= before + le32_bytes(bytes.len() as u32) + (bytes + after));
    le32_round_trip(before, bytes.len() as u32, bytes + after);
    assert(input.subrange(p + 4, p + 4 + bytes.len()) =~= bytes);
}

/// Whether `next` is the offset after a field that starts at `pos` and lies
/// inside an input of `len` bytes.
pub open spec fn advances(pos: int, next: int, len: nat) -> bool {
    pos < next <= len
}

/// A reader that finds a value has moved forward and has stayed inside the
/// input: every field takes at least one byte.
pub proof fn reading_advances(input: Seq<u8>, pos: int, variants: int, max_len: nat, max: int)
    requires
        0 <= pos,
    ensures
        parse_bool(input, pos) matches Ok(found) ==> advances(pos, found.1, input.len()),
        parse_tag(input, pos, variants) matches Ok(found) ==> advances(pos, found.1, input.len()),
        parse_char(input, pos) matches Ok(found) ==> advances(pos, found.1, input.len()),
        parse_text(input, pos, max_len) matches Ok(found) ==> advances(
            pos,
            found.1,
            input.len(),
        ) && found.0.len() <= max_len && text_encodable(found.0),
        parse_bytes(input, pos, max) matches Ok(found) ==> advances(pos, found.1, input.len())
            && found.0.len() <= max,
{
    text_stop_is_first(input, pos, max_len);
    if parse_text(input, pos, max_len) is Ok {
        let stop = text_stop(input, pos, max_len);
        let text = input.subrange(pos, stop);
        assert forall|i: int| 0 <= i < text.len() implies text[i] != 0 by {
            assert(holds_text(input, pos + i));
        }
    }
}

/// A failure that belongs to the binary format names an offset, and the
/// offset is that of the field that could not be read. For a text it is the
/// offset at which the terminator was due: no further from the start of the
/// text than the longest text allowed, and inside the input unless the text
/// itself starts outside it.
pub proof fn failures_name_their_offset(
    input: Seq<u8>,
    pos: int,
    variants: int,
    max_len: nat,
    max: int,
)
    requires
        0 <= pos,
    ensures
        parse_bool(input, pos) matches Err(e) ==> e == end_of_input(pos) || e.offset() == Some(
            pos,
        ),
        parse_tag(input, pos, variants) matches Err(e) ==> e == end_of_input(pos) || e.offset()
            == Some(pos),
        parse_char(input, pos) matches Err(e) ==> e == end_of_input(pos) || e.offset() == Some(
            pos,
        ),
        parse_bytes(input, pos, max) matches Err(e) ==> e == end_of_input(pos) || e.offset()
            == Some(pos),
        parse_text(input, pos, max_len) matches Err(e) ==> e matches ErrorView::StringNotNullTerminated(
            at,
        ) && pos <= at <= pos + max_len && (at <= input.len() || at == pos),
{
    text_stop_is_first(input, pos, max_len);
    let stop = text_stop(input, pos, max_len);
    if stop > input.len() && stop > pos {
        assert(holds_text(input, stop - 1));
    }
}

} // verus!
