use race_scheduler::text::{format_u64, parse_u64, push_decimal, str_eq};

#[test]
fn str_eq_compares_characters() {
    assert!(str_eq("", ""));
    assert!(str_eq("race", "race"));
    assert!(!str_eq("race", "racE"));
    assert!(!str_eq("race", "races"));
    assert!(!str_eq("races", "race"));
    assert!(str_eq("🦊fox-hole", "🦊fox-hole"));
    assert!(!str_eq("🦊fox-hole", "fox-hole"));
}

#[test]
fn parse_u64_reads_decimal_numbers() {
    assert_eq!(Some(0), parse_u64("0"));
    assert_eq!(Some(7), parse_u64("7"));
    assert_eq!(Some(7), parse_u64("007"));
    assert_eq!(Some(42), parse_u64("+42"));
    assert_eq!(Some(798390141496197212), parse_u64("798390141496197212"));
    assert_eq!(Some(u64::MAX), parse_u64("18446744073709551615"));
    assert_eq!(Some(u64::MAX), parse_u64("00018446744073709551615"));
}

#[test]
fn parse_u64_rejects_everything_else() {
    assert_eq!(None, parse_u64(""));
    assert_eq!(None, parse_u64("+"));
    assert_eq!(None, parse_u64("-1"));
    assert_eq!(None, parse_u64("++1"));
    assert_eq!(None, parse_u64("1+"));
    assert_eq!(None, parse_u64(" 1"));
    assert_eq!(None, parse_u64("1 "));
    assert_eq!(None, parse_u64("1_000"));
    assert_eq!(None, parse_u64("12a"));
    assert_eq!(None, parse_u64("0x10"));
    assert_eq!(None, parse_u64("١٢٣"));
    assert_eq!(None, parse_u64("18446744073709551616"));
    assert_eq!(None, parse_u64("184467440737095516150"));
    assert_eq!(None, parse_u64("99999999999999999999999999"));
}

#[test]
fn parse_u64_agrees_with_the_standard_parser() {
    let texts = [
        "", "0", "+0", "-0", "+", "12", "0012", "+12", "12+", "1e3", "１２", "4294967296",
        "18446744073709551615", "18446744073709551616", "27670116110564327424", " 5", "5\n",
    ];
    for text in texts {
        assert_eq!(text.parse::<u64>().ok(), parse_u64(text), "{:?}", text);
    }
}

#[test]
fn format_u64_writes_the_shortest_decimal_form() {
    assert_eq!("0", format_u64(0));
    assert_eq!("9", format_u64(9));
    assert_eq!("10", format_u64(10));
    assert_eq!("1623294000", format_u64(1623294000));
    assert_eq!("18446744073709551615", format_u64(u64::MAX));
    let mut text = String::from("<@&");
    push_decimal(&mut text, 4005);
    assert_eq!("<@&4005", text);
}

#[test]
fn decimal_text_round_trips() {
    let numbers = [0, 1, 9, 10, 99, 100, 12345, 798390141496197212, u64::MAX - 1, u64::MAX];
    for n in numbers {
        assert_eq!(n.to_string(), format_u64(n));
        assert_eq!(Some(n), parse_u64(&format_u64(n)));
    }
}
