//! Writers of the binary wire format.
//!
//! Each writer appends one field to `out`. A value that has no encoding is
//! refused and leaves `out` as it was; the failure names the offset at which
//! the field would have started. What a writer has written, a reader of the
//! same kind of field finds again at the offset where the field starts.

use crate::error::{Error, ErrorView};
use crate::text::append_decimal;
use crate::wire::{
    bool_bytes, bool_round_trip, bytes_bytes, bytes_encodable, bytes_round_trip, char_bytes,
    char_round_trip, le32_bytes, parse_bool, parse_bytes, parse_char, parse_tag, parse_text,
    tag_bytes, tag_round_trip, terminator_in_text, text_bytes, text_encodable, text_round_trip,
};
use vstd::prelude::*;
use vstd::string::StringExecFns;

verus! {

/// Appends the four bytes of `n`, least significant first.
fn push_le32(out: &mut Vec<u8>, n: u32)
    ensures
        final(out)@ == old(out)@ + le32_bytes(n),
{
    out.push((n % 256) as u8);
    out.push((n / 256 % 256) as u8);
    out.push((n / 65536 % 256) as u8);
    out.push((n / 16777216) as u8);
    assert(out@ =~= old(out)@ + le32_bytes(n));
}

/// Whether `text` holds the terminator byte.
fn holds_terminator(text: &[u8]) -> (found: bool)
    ensures
        found == !text_encodable(text@),
{
    let mut i: usize = 0;
    while i < text.len()
        invariant
            i <= text@.len(),
            forall|j: int| 0 <= j < i ==> text@[j] != 0,
        decreases text@.len() - i,
    {
        if text[i] == 0 {
            return true;
        }
        i += 1;
    }
    false
}

/// The failure for a text that holds the terminator byte.
fn terminator_in_text_error(pos: usize) -> (e: Error)
    ensures
        e@ == terminator_in_text(pos as int),
{
    let mut message = String::from_str("text holds a terminator byte. Pos: ");
    append_decimal(&mut message, pos as u64);
    Error::Custom(message)
}

/// Writes a boolean.
pub fn encode_bool(out: &mut Vec<u8>, v: bool)
    ensures
        final(out)@ == old(out)@ + bool_bytes(v),
        parse_bool(final(out)@, old(out)@.len() as int) == Ok::<(bool, int), ErrorView>(
            (v, final(out)@.len() as int),
        ),
{
    out.push(if v { 1 } else { 0 });
    assert(out@ =~= old(out)@ + bool_bytes(v) + Seq::<u8>::empty());
    proof {
        bool_round_trip(old(out)@, v, Seq::empty());
    }
}

/// Writes the tag of a union with `variants` variants, numbered from `0`. A
/// tag that names none of them is refused.
pub fn encode_tag(out: &mut Vec<u8>, tag: u8, variants: u32) -> (r: Result<(), Error>)
    ensures
        match r {
            Ok(()) => tag < variants && final(out)@ == old(out)@ + tag_bytes(tag) && parse_tag(
                final(out)@,
                old(out)@.len() as int,
                variants as int,
            ) == Ok::<(u8, int), ErrorView>((tag, final(out)@.len() as int)),
            Err(e) => tag >= variants && final(out)@ == old(out)@ && e@
                == ErrorView::InvalidTagEncoding(tag, old(out)@.len() as int),
        },
{
    if (tag as u32) < variants {
        out.push(tag);
        assert(out@ =~= old(out)@ + tag_bytes(tag) + Seq::<u8>::empty());
        proof {
            tag_round_trip(old(out)@, tag, variants as int, Seq::empty());
        }
        Ok(())
    } else {
        Err(Error::InvalidTagEncoding(tag, out.len()))
    }
}

/// Writes a character.
pub fn encode_char(out: &mut Vec<u8>, c: char)
    ensures
        final(out)@ == old(out)@ + char_bytes(c),
        parse_char(final(out)@, old(out)@.len() as int) == Ok::<(char, int), ErrorView>(
            (c, final(out)@.len() as int),
        ),
{
    push_le32(out, c as u32);
    assert(out@ =~= old(out)@ + char_bytes(c) + Seq::<u8>::empty());
    proof {
        char_round_trip(old(out)@, c, Seq::empty());
    }
}

/// Writes a text and its terminator. A text that holds the terminator byte
/// is refused.
pub fn encode_text(out: &mut Vec<u8>, text: &[u8]) -> (r: Result<(), Error>)
    ensures
        match r {
            Ok(()) => text_encodable(text@) && final(out)@ == old(out)@ + text_bytes(text@)
                && forall|max_len: nat|
                text@.len() <= max_len ==> #[trigger] parse_text(
                    final(out)@,
                    old(out)@.len() as int,
                    max_len,
                ) == Ok::<(Seq<u8>, int), ErrorView>((text@, final(out)@.len() as int)),
            Err(e) => !text_encodable(text@) && final(out)@ == old(out)@ && e@
                == terminator_in_text(old(out)@.len() as int),
        },
{
    if holds_terminator(text) {
        return Err(terminator_in_text_error(out.len()));
    }
    out.extend_from_slice(text);
    out.push(0);
    assert(out@ =~= old(out)@ + text_bytes(text@) + Seq::<u8>::empty());
    assert forall|max_len: nat| text@.len() <= max_len implies #[trigger] parse_text(
        out@,
        old(out)@.len() as int,
        max_len,
    ) == Ok::<(Seq<u8>, int), ErrorView>((text@, out@.len() as int)) by {
        text_round_trip(old(out)@, text@, max_len, Seq::empty());
    }
    Ok(())
}

/// Writes a run of bytes for a reader that accepts at most `max` of them. A
/// run that is longer than `max`, or whose length does not fit the length
/// field, is refused.
pub fn encode_bytes(out: &mut Vec<u8>, bytes: &[u8], max: usize) -> (r: Result<(), Error>)
    ensures
        match r {
            Ok(()) => bytes_encodable(bytes@, max as int) && final(out)@ == old(out)@ + bytes_bytes(
                bytes@,
            ) && parse_bytes(final(out)@, old(out)@.len() as int, max as int) == Ok::<
                (Seq<u8>, int),
                ErrorView,
            >((bytes@, final(out)@.len() as int)),
            Err(e) => !bytes_encodable(bytes@, max as int) && final(out)@ == old(out)@ && e@
                == ErrorView::BytesTooBig(old(out)@.len() as int),
        },
{
    let len = bytes.len();
    if len > max || len > 0xFFFF_FFFF {
        return Err(Error::BytesTooBig(out.len()));
    }
    push_le32(out, len as u32);
    out.extend_from_slice(bytes);
    assert(out@ =~= old(out)@ + bytes_bytes(bytes@) + Seq::<u8>::empty());
    proof {
        bytes_round_trip(old(out)@, bytes@, max as int, Seq::empty());
    }
    Ok(())
}

} // verus!
