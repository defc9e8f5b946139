use auto_dark_mode::timetext::{chars_of, format_hhmm, is_white_space_char, parse_time, str_equals};

#[test]
fn parses_plain_times() {
    assert_eq!(parse_time("07:30"), Some(27000));
    assert_eq!(parse_time("00:00"), Some(0));
    assert_eq!(parse_time("23:59"), Some(86340));
    assert_eq!(parse_time("7:5"), Some(25500));
}

#[test]
fn rejects_out_of_range_fields() {
    assert_eq!(parse_time("24:00"), None);
    assert_eq!(parse_time("12:60"), None);
    assert_eq!(parse_time("99:99"), None);
    assert_eq!(parse_time("4294967296:00"), None);
    assert_eq!(parse_time("4294967295:00"), None);
}

#[test]
fn rejects_text_without_two_fields() {
    assert_eq!(parse_time(""), None);
    assert_eq!(parse_time("7"), None);
    assert_eq!(parse_time("0730"), None);
    assert_eq!(parse_time(":"), None);
    assert_eq!(parse_time("07:"), None);
    assert_eq!(parse_time(":30"), None);
}

#[test]
fn trims_fields_and_ignores_extra_fields() {
    assert_eq!(parse_time(" 7 : 5 "), Some(25500));
    assert_eq!(parse_time("\t08:15\n"), Some(29700));
    assert_eq!(parse_time("\u{3000}08:00"), Some(28800));
    assert_eq!(parse_time("07:00:59"), Some(25200));
    assert_eq!(parse_time("1:2:3:4"), Some(3720));
}

#[test]
fn reads_fields_as_u32_from_str_does() {
    assert_eq!(parse_time("+7:+05"), Some(25500));
    assert_eq!(parse_time("-1:00"), None);
    assert_eq!(parse_time("+:00"), None);
    assert_eq!(parse_time("++7:00"), None);
    assert_eq!(parse_time("0x1:00"), None);
    assert_eq!(parse_time("7a:00"), None);
    assert_eq!(parse_time("\u{663}:00"), None);
    assert_eq!(parse_time("7 0:00"), None);
    assert_eq!(parse_time("0000000007:00000000030"), Some(27000));
}

#[test]
fn agrees_with_std_parsing_on_samples() {
    let samples = [
        "07:30", " 7:5", "+1:+1", "-0:0", "a:b", "23:59:59", "10 : 10", "00007:1", "1:", ":1",
        "\u{a0}3:04", "3\u{2003}:04", "12:3x", "٣:00", "5:+", "",
    ];
    for s in samples {
        let parts: Vec<&str> = s.split(':').collect();
        let expected = if parts.len() >= 2 {
            match (parts[0].trim().parse::<u32>(), parts[1].trim().parse::<u32>()) {
                (Ok(h), Ok(m)) if h < 24 && m < 60 => Some(h * 3600 + m * 60),
                _ => None,
            }
        } else {
            None
        };
        assert_eq!(parse_time(s), expected, "text {:?}", s);
    }
}

#[test]
fn formats_two_digit_fields() {
    assert_eq!(format_hhmm(0), "00:00");
    assert_eq!(format_hhmm(27059), "07:30");
    assert_eq!(format_hhmm(43200), "12:00");
    assert_eq!(format_hhmm(86399), "23:59");
}

#[test]
fn format_then_parse_rounds_to_the_minute() {
    let mut t: u32 = 0;
    while t < 86400 {
        assert_eq!(parse_time(&format_hhmm(t)), Some(t - t % 60));
        t += 37;
    }
}

#[test]
fn white_space_matches_std() {
    for u in 0u32..0x3100 {
        if let Some(c) = char::from_u32(u) {
            assert_eq!(is_white_space_char(c), c.is_whitespace(), "char {:#x}", u);
        }
    }
}

#[test]
fn string_helpers() {
    assert_eq!(chars_of("héllo"), vec!['h', 'é', 'l', 'l', 'o']);
    assert!(str_equals("zh", "zh"));
    assert!(!str_equals("zh", "zh-CN"));
    assert!(!str_equals("en", "zh"));
    assert!(str_equals("", ""));
}
