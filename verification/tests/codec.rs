use gameserver::decode::{
    decode_any, decode_bool, decode_bytes, decode_char, decode_identifier, decode_ignored_any,
    decode_map, decode_tag, decode_text, end_of_input_error,
};
use gameserver::encode::{encode_bool, encode_bytes, encode_char, encode_tag, encode_text};
use gameserver::error::Error;

fn eof(pos: usize) -> Error {
    Error::Custom(format!("unexpected end of input. Pos: {}", pos))
}

#[test]
fn bool_byte_two_at_offset_seven_is_refused() {
    let input = [0u8, 0, 0, 0, 0, 0, 0, 2];
    assert_eq!(decode_bool(&input, 7), Err(Error::InvalidBoolEncoding(2, 7)));
}

#[test]
fn bool_canonical_bytes_are_read() {
    let input = [1u8, 0];
    assert_eq!(decode_bool(&input, 0), Ok((true, 1)));
    assert_eq!(decode_bool(&input, 1), Ok((false, 2)));
}

#[test]
fn bool_byte_255_is_refused() {
    assert_eq!(decode_bool(&[255u8], 0), Err(Error::InvalidBoolEncoding(255, 0)));
}

#[test]
fn bool_past_the_end_is_end_of_input() {
    let input = [1u8];
    assert_eq!(decode_bool(&input, 1), Err(eof(1)));
    assert_eq!(decode_bool(&input, 9), Err(eof(9)));
    assert_eq!(decode_bool(&[], 0), Err(eof(0)));
}

#[test]
fn end_of_input_error_names_the_offset() {
    assert_eq!(end_of_input_error(0), eof(0));
    assert_eq!(end_of_input_error(1234), eof(1234));
}

#[test]
fn text_without_terminator_names_the_end_of_the_buffer() {
    let input = [b'a', b'b', b'c'];
    assert_eq!(decode_text(&input, 0, 100), Err(Error::StringNotNullTerminated(3)));
    assert_eq!(decode_text(&input, 1, 100), Err(Error::StringNotNullTerminated(3)));
}

#[test]
fn text_beyond_its_bound_names_where_the_terminator_was_due() {
    let input = [b'a', b'b', b'c', b'd', 0];
    assert_eq!(decode_text(&input, 0, 3), Err(Error::StringNotNullTerminated(3)));
    assert_eq!(decode_text(&input, 1, 2), Err(Error::StringNotNullTerminated(3)));
    assert_eq!(decode_text(&input, 0, 0), Err(Error::StringNotNullTerminated(0)));
}

#[test]
fn text_exactly_at_its_bound_is_read() {
    let input = [b'a', b'b', b'c', b'd', 0, 7];
    assert_eq!(decode_text(&input, 0, 4), Ok((vec![b'a', b'b', b'c', b'd'], 5)));
    assert_eq!(decode_text(&input, 2, 2), Ok((vec![b'c', b'd'], 5)));
}

#[test]
fn text_may_be_empty() {
    let input = [0u8, 1];
    assert_eq!(decode_text(&input, 0, 0), Ok((vec![], 1)));
    assert_eq!(decode_text(&input, 0, 10), Ok((vec![], 1)));
}

#[test]
fn text_past_the_end_names_its_own_offset() {
    let input = [b'a', 0];
    assert_eq!(decode_text(&input, 2, 10), Err(Error::StringNotNullTerminated(2)));
    assert_eq!(decode_text(&input, 5, 10), Err(Error::StringNotNullTerminated(5)));
    assert_eq!(decode_text(&[], 0, 10), Err(Error::StringNotNullTerminated(0)));
}

#[test]
fn tag_nine_at_offset_three_with_four_variants_is_refused() {
    let input = [0u8, 1, 2, 9];
    assert_eq!(decode_tag(&input, 3, 4), Err(Error::InvalidTagEncoding(9, 3)));
}

#[test]
fn tag_below_the_variant_count_is_read() {
    let input = [0u8, 1, 2, 3, 4];
    assert_eq!(decode_tag(&input, 0, 4), Ok((0, 1)));
    assert_eq!(decode_tag(&input, 3, 4), Ok((3, 4)));
    assert_eq!(decode_tag(&input, 4, 4), Err(Error::InvalidTagEncoding(4, 4)));
}

#[test]
fn tag_of_a_union_without_variants_is_refused() {
    assert_eq!(decode_tag(&[0u8], 0, 0), Err(Error::InvalidTagEncoding(0, 0)));
}

#[test]
fn tag_255_is_read_when_every_byte_is_a_variant() {
    assert_eq!(decode_tag(&[255u8], 0, 256), Ok((255, 1)));
    assert_eq!(decode_tag(&[255u8], 0, 255), Err(Error::InvalidTagEncoding(255, 0)));
}

#[test]
fn tag_past_the_end_is_end_of_input() {
    assert_eq!(decode_tag(&[1u8], 1, 4), Err(eof(1)));
}

#[test]
fn bytes_length_beyond_the_maximum_is_refused() {
    let mut input = vec![9u8, 9];
    input.extend_from_slice(&1_000_000_000u32.to_le_bytes());
    input.extend_from_slice(&[1, 2, 3]);
    assert_eq!(decode_bytes(&input, 2, 65536), Err(Error::BytesTooBig(2)));
}

#[test]
fn bytes_length_one_over_the_maximum_is_refused() {
    let input = [3u8, 0, 0, 0, 1, 2, 3];
    assert_eq!(decode_bytes(&input, 0, 2), Err(Error::BytesTooBig(0)));
    assert_eq!(decode_bytes(&input, 0, 3), Ok((vec![1, 2, 3], 7)));
}

#[test]
fn bytes_are_read_least_significant_length_byte_first() {
    let mut input = vec![0x02u8, 0x01, 0, 0];
    input.extend_from_slice(&[7u8; 258]);
    input.push(42);
    assert_eq!(decode_bytes(&input, 0, 65536), Ok((vec![7u8; 258], 262)));
}

#[test]
fn bytes_may_be_empty() {
    let input = [5u8, 0, 0, 0, 0];
    assert_eq!(decode_bytes(&input, 1, 0), Ok((vec![], 5)));
}

#[test]
fn bytes_cut_short_are_end_of_input() {
    let input = [4u8, 0, 0, 0, 1, 2, 3];
    assert_eq!(decode_bytes(&input, 0, 100), Err(eof(0)));
    assert_eq!(decode_bytes(&input, 4, 100), Err(eof(4)));
    assert_eq!(decode_bytes(&input, 7, 100), Err(eof(7)));
    assert_eq!(decode_bytes(&input, 70, 100), Err(eof(70)));
}

#[test]
fn char_is_read_least_significant_byte_first() {
    let input = [0u8, 0x41, 0, 0, 0, 0xAC, 0x20, 0, 0];
    assert_eq!(decode_char(&input, 1), Ok(('A', 5)));
    assert_eq!(decode_char(&input, 5), Ok(('\u{20AC}', 9)));
}

#[test]
fn char_surrogate_is_refused() {
    let input = [0x00u8, 0xD8, 0, 0];
    assert_eq!(decode_char(&input, 0), Err(Error::InvalidCharEncoding(0)));
    let input = [0xFFu8, 0xDF, 0, 0];
    assert_eq!(decode_char(&input, 0), Err(Error::InvalidCharEncoding(0)));
}

#[test]
fn char_around_the_surrogates_is_read() {
    assert_eq!(decode_char(&[0xFFu8, 0xD7, 0, 0], 0), Ok(('\u{D7FF}', 4)));
    assert_eq!(decode_char(&[0x00u8, 0xE0, 0, 0], 0), Ok(('\u{E000}', 4)));
}

#[test]
fn char_beyond_the_last_code_point_is_refused() {
    assert_eq!(decode_char(&[0xFFu8, 0xFF, 0x10, 0], 0), Ok(('\u{10FFFF}', 4)));
    assert_eq!(decode_char(&[0x00u8, 0x00, 0x11, 0], 0), Err(Error::InvalidCharEncoding(0)));
    assert_eq!(decode_char(&[3u8, 0xFF, 0xFF, 0xFF, 0xFF], 1), Err(Error::InvalidCharEncoding(1)));
}

#[test]
fn char_cut_short_is_end_of_input() {
    assert_eq!(decode_char(&[0x41u8, 0, 0], 0), Err(eof(0)));
    assert_eq!(decode_char(&[0x41u8, 0, 0, 0], 1), Err(eof(1)));
}

#[test]
fn unsupported_readers_name_their_offset() {
    assert_eq!(decode_any(11), Err(Error::DeserializeAnyNotSupported(11)));
    assert_eq!(decode_map(12), Err(Error::DeserializeMapNotSupported(12)));
    assert_eq!(decode_identifier(13), Err(Error::DeserializeIdentifierNotSupported(13)));
    assert_eq!(decode_ignored_any(14), Err(Error::DeserializeIgnoredAnyNotSupported(14)));
}

#[test]
fn encode_bool_writes_one_byte() {
    let mut out = vec![9u8];
    encode_bool(&mut out, true);
    encode_bool(&mut out, false);
    assert_eq!(out, vec![9, 1, 0]);
}

#[test]
fn encode_char_writes_four_bytes() {
    let mut out = Vec::new();
    encode_char(&mut out, '\u{20AC}');
    assert_eq!(out, vec![0xAC, 0x20, 0, 0]);
    encode_char(&mut out, '\u{10FFFF}');
    assert_eq!(out, vec![0xAC, 0x20, 0, 0, 0xFF, 0xFF, 0x10, 0]);
}

#[test]
fn encode_tag_refuses_an_unknown_variant() {
    let mut out = vec![1u8, 2];
    assert_eq!(encode_tag(&mut out, 4, 4), Err(Error::InvalidTagEncoding(4, 2)));
    assert_eq!(out, vec![1, 2]);
    assert_eq!(encode_tag(&mut out, 3, 4), Ok(()));
    assert_eq!(out, vec![1, 2, 3]);
}

#[test]
fn encode_text_appends_the_terminator() {
    let mut out = vec![5u8];
    assert_eq!(encode_text(&mut out, b"hi"), Ok(()));
    assert_eq!(out, vec![5, b'h', b'i', 0]);
}

#[test]
fn encode_text_refuses_a_terminator_inside() {
    let mut out = vec![5u8, 6];
    assert_eq!(
        encode_text(&mut out, &[b'h', 0, b'i']),
        Err(Error::Custom("text holds a terminator byte. Pos: 2".to_string()))
    );
    assert_eq!(out, vec![5, 6]);
}

#[test]
fn encode_bytes_writes_the_length_first() {
    let mut out = vec![5u8];
    assert_eq!(encode_bytes(&mut out, &[7u8; 258], 1000), Ok(()));
    assert_eq!(out.len(), 1 + 4 + 258);
    assert_eq!(&out[..5], &[5, 0x02, 0x01, 0, 0]);
    assert_eq!(&out[5..], &[7u8; 258][..]);
}

#[test]
fn encode_bytes_refuses_more_than_the_maximum() {
    let mut out = vec![5u8, 5, 5];
    assert_eq!(encode_bytes(&mut out, &[1, 2, 3], 2), Err(Error::BytesTooBig(3)));
    assert_eq!(out, vec![5, 5, 5]);
    assert_eq!(encode_bytes(&mut out, &[1, 2, 3], 3), Ok(()));
    assert_eq!(out, vec![5, 5, 5, 3, 0, 0, 0, 1, 2, 3]);
}

#[test]
fn round_trip_of_every_kind_of_field() {
    let max = 65536;
    let mut out = Vec::new();
    encode_bool(&mut out, true);
    encode_char(&mut out, '\u{1F600}');
    encode_tag(&mut out, 2, 4).unwrap();
    encode_text(&mut out, b"Arun").unwrap();
    encode_bytes(&mut out, &[0, 1, 0, 255], max).unwrap();
    encode_bool(&mut out, false);

    let (flag, pos) = decode_bool(&out, 0).unwrap();
    assert!(flag);
    let (c, pos) = decode_char(&out, pos).unwrap();
    assert_eq!(c, '\u{1F600}');
    let (tag, pos) = decode_tag(&out, pos, 4).unwrap();
    assert_eq!(tag, 2);
    let (text, pos) = decode_text(&out, pos, 64).unwrap();
    assert_eq!(text, b"Arun".to_vec());
    let (bytes, pos) = decode_bytes(&out, pos, max).unwrap();
    assert_eq!(bytes, vec![0, 1, 0, 255]);
    let (flag, pos) = decode_bool(&out, pos).unwrap();
    assert!(!flag);
    assert_eq!(pos, out.len());
}

#[test]
fn round_trip_of_every_byte_as_tag() {
    for tag in 0..=255u8 {
        let mut out = vec![1u8, 2, 3];
        encode_tag(&mut out, tag, 256).unwrap();
        out.push(77);
        assert_eq!(decode_tag(&out, 3, 256), Ok((tag, 4)));
    }
}

#[test]
fn round_trip_of_lengths_across_byte_boundaries() {
    for len in [0usize, 1, 255, 256, 257, 65535, 65536, 70000] {
        let bytes = vec![0xA5u8; len];
        let mut out = vec![0u8; 3];
        encode_bytes(&mut out, &bytes, 70000).unwrap();
        assert_eq!(decode_bytes(&out, 3, 70000), Ok((bytes, 3 + 4 + len)));
    }
}

#[test]
fn round_trip_of_characters_at_the_edges() {
    for c in ['\0', 'a', '\u{7F}', '\u{80}', '\u{D7FF}', '\u{E000}', '\u{FFFF}', '\u{10000}', '\u{10FFFF}'] {
        let mut out = Vec::new();
        encode_char(&mut out, c);
        assert_eq!(decode_char(&out, 0), Ok((c, 4)));
    }
}
