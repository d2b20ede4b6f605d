use custom_rss::text::{chars_of, parse_signed, parse_unsigned, same_text, split_words, trim, whitespace};

#[test]
fn whitespace_is_the_unicode_property() {
    let mut code = 0u32;
    while code <= 0x10FFFF {
        if let Some(c) = char::from_u32(code) {
            assert_eq!(whitespace(c), c.is_whitespace(), "U+{:04X}", code);
        }
        code += 1;
    }
}

#[test]
fn whitespace_holds_the_named_characters() {
    for c in [' ', '\t', '\n', '\r', '\u{b}', '\u{c}', '\u{85}', '\u{a0}', '\u{1680}', '\u{2000}',
        '\u{200a}', '\u{2028}', '\u{2029}', '\u{202f}', '\u{205f}', '\u{3000}']
    {
        assert!(whitespace(c));
    }
    for c in ['a', '0', '.', '\u{200b}', '\u{180e}', '\u{feff}', '\u{0}', '\u{1f}', '\u{8}', '\u{e}'] {
        assert!(!whitespace(c));
    }
}

#[test]
fn chars_of_keeps_every_character() {
    assert_eq!(chars_of(""), Vec::<char>::new());
    assert_eq!(chars_of("añ\u{1f600}z"), vec!['a', 'ñ', '\u{1f600}', 'z']);
}

#[test]
fn same_text_compares_characters() {
    assert!(same_text("", ""));
    assert!(same_text("Ago.", "Ago."));
    assert!(!same_text("Ago.", "Ago"));
    assert!(!same_text("Ago", "Ago."));
    assert!(!same_text("Ago.", "ago."));
    assert!(!same_text("a", ""));
}

const SAMPLES: [&str; 22] = [
    "",
    " ",
    "a",
    " a",
    "a ",
    " a ",
    "  jueves,\t3  de\nenero de\u{a0}2024  ",
    "\u{3000}uno\u{2003}dos\u{2028}tres\u{205f}",
    "sin-espacios",
    "\n\n\n",
    "a\u{200b}b",
    " \u{feff}x ",
    "tab\tinside",
    "ñandú  çedilla",
    "\u{1f600} \u{1f601}",
    "15 Ago. 2023",
    "x",
    "\r\n",
    " \u{85} ",
    "a\u{b}b\u{c}c",
    "  leading",
    "trailing  ",
];

#[test]
fn trim_is_that_of_std() {
    for sample in SAMPLES {
        assert_eq!(trim(sample), sample.trim(), "{:?}", sample);
    }
}

#[test]
fn trim_examples() {
    assert_eq!(trim("  Primera entrada \n"), "Primera entrada");
    assert_eq!(trim(" \t "), "");
    assert_eq!(trim("a  b"), "a  b");
}

#[test]
fn split_words_is_split_whitespace_of_std() {
    for sample in SAMPLES {
        let expected: Vec<String> = sample.split_whitespace().map(String::from).collect();
        assert_eq!(split_words(sample), expected, "{:?}", sample);
    }
}

#[test]
fn split_words_examples() {
    assert_eq!(
        split_words("jueves, 3 de enero de 2024"),
        vec!["jueves,", "3", "de", "enero", "de", "2024"]
    );
    assert_eq!(split_words("15 Ago. 2023"), vec!["15", "Ago.", "2023"]);
    assert_eq!(split_words("   "), Vec::<String>::new());
}

const NUMBERS: [&str; 40] = [
    "",
    "0",
    "7",
    "15",
    "2024",
    "+15",
    "-15",
    "+",
    "-",
    "++1",
    "--1",
    "+-1",
    "-+1",
    "00015",
    "+0",
    "-0",
    "4294967295",
    "4294967296",
    "2147483647",
    "2147483648",
    "-2147483648",
    "-2147483649",
    "99999999999999999999999999",
    "-99999999999999999999999999",
    "0000000000000000000000000000000000003",
    "1_000",
    "1 ",
    " 1",
    "1.0",
    "1e3",
    "0x10",
    "１２",
    "٣",
    "12a",
    "a12",
    "+2147483647",
    "+4294967295",
    "-00000000002147483648",
    "429496729x",
    "42949672950",
];

#[test]
fn parse_unsigned_is_that_of_std() {
    for sample in NUMBERS {
        assert_eq!(parse_unsigned(sample), sample.parse::<u32>().ok(), "{:?}", sample);
    }
}

#[test]
fn parse_signed_is_that_of_std() {
    for sample in NUMBERS {
        assert_eq!(parse_signed(sample), sample.parse::<i32>().ok(), "{:?}", sample);
    }
}

#[test]
fn parse_examples() {
    assert_eq!(parse_unsigned("15"), Some(15));
    assert_eq!(parse_unsigned("+15"), Some(15));
    assert_eq!(parse_unsigned("-15"), None);
    assert_eq!(parse_unsigned("4294967295"), Some(u32::MAX));
    assert_eq!(parse_unsigned("4294967296"), None);
    assert_eq!(parse_signed("2024"), Some(2024));
    assert_eq!(parse_signed("-2024"), Some(-2024));
    assert_eq!(parse_signed("-2147483648"), Some(i32::MIN));
    assert_eq!(parse_signed("2147483648"), None);
    assert_eq!(parse_signed(""), None);
}
