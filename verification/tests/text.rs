use openhl::bytes;
use openhl::split;
use openhl::text;

#[test]
fn decimals_are_written_as_rust_writes_them() {
    for n in [0u128, 7, 10, 99, 100, 12345, u64::MAX as u128, u128::MAX] {
        assert_eq!(text::decimal_text(n), format!("{n}"));
    }
    for n in [0i128, 5, -1, -10, i64::MIN as i128, i128::MAX, i128::MIN] {
        assert_eq!(text::decimal_int_text(n), format!("{n}"));
        assert_eq!(text::decimal_signed_text(n), format!("{n:+}"));
    }
}

#[test]
fn padding_counts_characters() {
    for s in ["", "a", "é─", "longer than ten"] {
        assert_eq!(text::padded_right(s, 10), format!("{s:<10}"));
        assert_eq!(text::padded_left(s, 10), format!("{s:>10}"));
    }
    assert_eq!(text::repeat_char('─', 3), "───");
    assert_eq!(text::repeat_char('x', 0), "");
}

#[test]
fn texts_are_compared_and_cut_by_character() {
    assert!(text::same_text("", ""));
    assert!(text::same_text("añb", "añb"));
    assert!(!text::same_text("a", "b"));
    assert!(!text::same_text("a", "ab"));
    let chars = text::chars_of("añb");
    assert_eq!(chars, vec!['a', 'ñ', 'b']);
    assert_eq!(text::text_of(&chars, 1, 3), "ñb");
}

#[test]
fn words_for_values() {
    assert_eq!(text::bool_text(true), "true");
    assert_eq!(text::bool_text(false), "false");
    assert_eq!(text::comma_text(&[]), "");
    assert_eq!(text::comma_text(&[3]), "3");
    assert_eq!(text::comma_text(&[1, 20, 255]), "1, 20, 255");
}

#[test]
fn bytes_that_are_no_text_get_a_placeholder() {
    assert_eq!(text::utf8_text("MARKÉT".as_bytes()), "MARKÉT");
    assert_eq!(text::utf8_text(&[0xff, 0x41]), "<non-utf8>");
    assert_eq!(text::utf8_text(&[]), "");
}

#[test]
fn white_space_is_that_of_unicode() {
    for v in 0..=0x10ffffu32 {
        if let Some(c) = char::from_u32(v) {
            assert_eq!(split::is_white_space(c), c.is_whitespace(), "{v:x}");
        }
    }
}

#[test]
fn texts_are_split_as_std_splits_them() {
    let samples = [
        "",
        " ",
        "a",
        "  two  words\t",
        "\u{a0}hard\u{2003}space\u{85}",
        "line\r\nnext\n\nlast",
        "ends\n",
        "lone\rreturn\r\n",
        "\n",
        "\r\n",
    ];
    for s in samples {
        assert_eq!(split::trimmed(s), s.trim(), "{s:?}");
        assert_eq!(split::split_words(s), s.split_whitespace().collect::<Vec<_>>(), "{s:?}");
        assert_eq!(split::split_lines(s), s.lines().collect::<Vec<_>>(), "{s:?}");
        for needle in ["", "a", "\n", "wo", "last", "no such"] {
            assert_eq!(split::has_text(s, needle), s.contains(needle), "{s:?} {needle:?}");
            assert_eq!(split::begins_with(s, needle), s.starts_with(needle), "{s:?} {needle:?}");
        }
    }
}

#[test]
fn numbers_round_trip_through_bytes() {
    let mut out: Vec<u8> = Vec::new();
    bytes::push_u16(&mut out, 0x0102);
    bytes::push_u32(&mut out, 0x03040506);
    bytes::push_u64(&mut out, 0x0708090a0b0c0d0e);
    bytes::push_i32(&mut out, -2);
    bytes::push_i64(&mut out, i64::MIN);
    bytes::push_bytes(&mut out, &[9, 9]);
    assert_eq!(
        out,
        vec![
            2, 1, 6, 5, 4, 3, 0xe, 0xd, 0xc, 0xb, 0xa, 9, 8, 7, 0xfe, 0xff, 0xff, 0xff, 0, 0, 0, 0,
            0, 0, 0, 0x80, 9, 9
        ]
    );
    assert_eq!(bytes::read_u16(&out, 0), 0x0102);
    assert_eq!(bytes::read_u32(&out, 2), 0x03040506);
    assert_eq!(bytes::read_u64(&out, 6), 0x0708090a0b0c0d0e);
    assert_eq!(bytes::read_i32(&out, 14), -2);
    assert_eq!(bytes::read_i64(&out, 18), i64::MIN);
    let tail: [u8; 2] = bytes::read_array(&out, 26);
    assert_eq!(tail, [9, 9]);
    assert!(bytes::same_bytes(&bytes::copy_bytes(&out), &out));
    assert!(!bytes::same_bytes(&[1], &[2]));
    assert!(!bytes::same_bytes(&[1], &[1, 1]));
}
