use simple_interaction::numeral::{parse_at_most, to_decimal};
use simple_interaction::text::{char_is_whitespace, chars_of, trim_end};

#[test]
fn trim_end_takes_off_the_line_ending() {
    assert_eq!(trim_end("y\n"), "y");
    assert_eq!(trim_end("y\r\n"), "y");
    assert_eq!(trim_end("y"), "y");
    assert_eq!(trim_end("\n"), "");
    assert_eq!(trim_end(""), "");
}

#[test]
fn trim_end_takes_off_all_white_space_at_the_end_and_none_elsewhere() {
    assert_eq!(trim_end("  y  \t\n"), "  y");
    assert_eq!(trim_end(" two words \n"), " two words");
    assert_eq!(trim_end("\ty"), "\ty");
    assert_eq!(trim_end("   "), "");
    assert_eq!(trim_end("a\u{a0}"), "a");
    assert_eq!(trim_end("a\u{3000}\u{2003}\u{85}"), "a");
    assert_eq!(trim_end("a\u{1680}\u{2028}\u{2029}\u{202f}\u{205f}"), "a");
    assert_eq!(trim_end("a\u{b}\u{c}"), "a");
}

#[test]
fn trim_end_keeps_what_is_no_white_space() {
    assert_eq!(trim_end("a\u{200b}"), "a\u{200b}");
    assert_eq!(trim_end("a\u{feff}"), "a\u{feff}");
    assert_eq!(trim_end("a\u{8}"), "a\u{8}");
    assert_eq!(trim_end("a\u{1f}"), "a\u{1f}");
    assert_eq!(trim_end("gr\u{fc}n\n"), "gr\u{fc}n");
    assert_eq!(trim_end("\u{1f34f} \n"), "\u{1f34f}");
}

#[test]
fn white_space_is_what_std_calls_white_space() {
    let mut code: u32 = 0;
    while code <= 0x3100 {
        if let Some(c) = char::from_u32(code) {
            assert_eq!(char_is_whitespace(c), c.is_whitespace());
        }
        code += 1;
    }
    assert!(!char_is_whitespace('\u{feff}'));
    assert!(!char_is_whitespace('\u{10ffff}'));
}

#[test]
fn chars_of_gives_the_characters_in_order() {
    assert_eq!(chars_of("a\u{fc}\u{1f34f}\n"), vec!['a', '\u{fc}', '\u{1f34f}', '\n']);
    assert_eq!(chars_of(""), Vec::<char>::new());
}

#[test]
fn to_decimal_writes_numbers_out() {
    assert_eq!(to_decimal(0), "0");
    assert_eq!(to_decimal(7), "7");
    assert_eq!(to_decimal(9), "9");
    assert_eq!(to_decimal(10), "10");
    assert_eq!(to_decimal(101), "101");
    assert_eq!(to_decimal(1234567890), "1234567890");
    assert_eq!(to_decimal(usize::MAX), usize::MAX.to_string());
}

#[test]
fn parse_at_most_reads_numerals() {
    assert_eq!(parse_at_most("0", 10), Some(0));
    assert_eq!(parse_at_most("7", 10), Some(7));
    assert_eq!(parse_at_most("10", 10), Some(10));
    assert_eq!(parse_at_most("+10", 10), Some(10));
    assert_eq!(parse_at_most("0010", 10), Some(10));
    assert_eq!(parse_at_most("1234567890", usize::MAX), Some(1234567890));
    assert_eq!(parse_at_most(&usize::MAX.to_string(), usize::MAX), Some(usize::MAX));
}

#[test]
fn parse_at_most_refuses_what_is_above_the_bound() {
    assert_eq!(parse_at_most("11", 10), None);
    assert_eq!(parse_at_most("100", 10), None);
    assert_eq!(parse_at_most("1", 0), None);
    assert_eq!(parse_at_most("0", 0), Some(0));
    assert_eq!(parse_at_most("18446744073709551616", usize::MAX), None);
    assert_eq!(parse_at_most("340282366920938463463374607431768211456", usize::MAX), None);
}

#[test]
fn parse_at_most_refuses_what_is_no_numeral() {
    assert_eq!(parse_at_most("", 10), None);
    assert_eq!(parse_at_most("+", 10), None);
    assert_eq!(parse_at_most("-1", 10), None);
    assert_eq!(parse_at_most("1-", 10), None);
    assert_eq!(parse_at_most("1+", 10), None);
    assert_eq!(parse_at_most("++1", 10), None);
    assert_eq!(parse_at_most(" 1", 10), None);
    assert_eq!(parse_at_most("1 ", 10), None);
    assert_eq!(parse_at_most("1\n", 10), None);
    assert_eq!(parse_at_most("0x1", 10), None);
    assert_eq!(parse_at_most("1e0", 10), None);
    assert_eq!(parse_at_most("/", 10), None);
    assert_eq!(parse_at_most(":", 10), None);
    assert_eq!(parse_at_most("\u{661}", 10), None);
}

#[test]
fn what_is_written_out_is_read_back() {
    let mut n: usize = 0;
    while n < 2000 {
        assert_eq!(parse_at_most(&to_decimal(n), usize::MAX), Some(n));
        assert_eq!(to_decimal(n), n.to_string());
        n += 1;
    }
}

#[test]
fn parse_at_most_reads_what_std_reads() {
    let texts = [
        "", "0", "1", "+1", "-1", "+-1", "01", "1_000", " 1", "1 ", "12", "99", "100", "+", "-",
        "a", "1a", "\u{663}", "18446744073709551615", "18446744073709551616",
    ];
    for text in texts {
        assert_eq!(parse_at_most(text, usize::MAX), text.parse::<usize>().ok());
    }
}
