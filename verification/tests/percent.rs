use oom_guard::percent::Percent;
use oom_guard::text::{parse_i32, parse_u64};

fn text_of(p: Percent) -> String {
    let mut out = String::new();
    p.push_to(&mut out);
    assert_eq!(out, p.to_text());
    out
}

#[test]
fn percent_reads_whole_numbers_and_fractions() {
    assert_eq!(Percent::parse("10"), Some(Percent::from_millis(10_000)));
    assert_eq!(Percent::parse("7.5"), Some(Percent::from_millis(7_500)));
    assert_eq!(Percent::parse("7.05"), Some(Percent::from_millis(7_050)));
    assert_eq!(Percent::parse("0.125"), Some(Percent::from_millis(125)));
    assert_eq!(Percent::parse("007.500"), Some(Percent::from_millis(7_500)));
    assert_eq!(Percent::parse("+3"), Some(Percent::from_millis(3_000)));
    assert_eq!(Percent::parse("-3.2"), Some(Percent::from_millis(-3_200)));
    assert_eq!(Percent::parse("-0"), Some(Percent::from_millis(0)));
}

#[test]
fn percent_refuses_what_is_no_decimal_number() {
    for text in [
        "", "+", "-", ".", "+.", "-.", "1e3", "1.5e0", "inf", "nan", "1,5", " 1", "1 ", "--1", "1.-2",
        "1..2", "1.2.3", "1.2x", "1.2345x", "٣",
    ] {
        assert_eq!(Percent::parse(text), None, "{text:?}");
    }
}

#[test]
fn percent_reads_a_point_without_digits_on_one_side() {
    assert_eq!(Percent::parse("5."), Some(Percent::from_millis(5_000)));
    assert_eq!(Percent::parse(".5"), Some(Percent::from_millis(500)));
    assert_eq!(Percent::parse("-.5"), Some(Percent::from_millis(-500)));
    assert_eq!(Percent::parse("+5."), Some(Percent::from_millis(5_000)));
    assert_eq!(Percent::parse("0."), Some(Percent::from_millis(0)));
    assert_eq!(Percent::parse(".0"), Some(Percent::from_millis(0)));
}

#[test]
fn percent_rounds_a_longer_fraction_down_to_a_thousandth() {
    assert_eq!(Percent::parse("1.2345"), Some(Percent::from_millis(1_234)));
    assert_eq!(Percent::parse("1.2340"), Some(Percent::from_millis(1_234)));
    assert_eq!(Percent::parse("1.2349999"), Some(Percent::from_millis(1_234)));
    assert_eq!(Percent::parse("0.0009"), Some(Percent::from_millis(0)));
    assert_eq!(Percent::parse("-1.2345"), Some(Percent::from_millis(-1_235)));
    assert_eq!(Percent::parse("-1.2340000"), Some(Percent::from_millis(-1_234)));
    assert_eq!(Percent::parse("-0.0005"), Some(Percent::from_millis(-1)));
    assert_eq!(Percent::parse("-0.0000"), Some(Percent::from_millis(0)));
    assert_eq!(
        Percent::parse("33.3333333333333333333333333333333333333333333333333333"),
        Some(Percent::from_millis(33_333))
    );
    assert_eq!(
        Percent::parse(".00000000000000000000000000000000000000000000000000001"),
        Some(Percent::from_millis(0))
    );
    assert_eq!(
        Percent::parse("-.00000000000000000000000000000000000000000000000000001"),
        Some(Percent::from_millis(-1))
    );
}

#[test]
fn percent_refuses_what_does_not_fit() {
    assert_eq!(
        Percent::parse("170141183460469231731687303715884105.727"),
        Some(Percent::from_millis(i128::MAX))
    );
    assert_eq!(
        Percent::parse("170141183460469231731687303715884105.7279"),
        Some(Percent::from_millis(i128::MAX))
    );
    assert_eq!(Percent::parse("170141183460469231731687303715884105.728"), None);
    assert_eq!(
        Percent::parse("-170141183460469231731687303715884105.727"),
        Some(Percent::from_millis(-i128::MAX))
    );
    assert_eq!(
        Percent::parse("-170141183460469231731687303715884105.728"),
        Some(Percent::from_millis(i128::MIN))
    );
    assert_eq!(
        Percent::parse("-170141183460469231731687303715884105.7271"),
        Some(Percent::from_millis(i128::MIN))
    );
    assert_eq!(Percent::parse("-170141183460469231731687303715884105.7281"), None);
    assert_eq!(Percent::parse("-170141183460469231731687303715884105.729"), None);
    assert_eq!(Percent::parse("999999999999999999999999999999999999999999"), None);
    assert_eq!(Percent::parse("340282366920938463463374607431768211456"), None);
}

#[test]
fn percent_text_has_three_digits_behind_the_point() {
    assert_eq!(text_of(Percent::from_millis(10_000)), "10.000");
    assert_eq!(text_of(Percent::from_millis(7_500)), "7.500");
    assert_eq!(text_of(Percent::from_millis(5)), "0.005");
    assert_eq!(text_of(Percent::from_millis(0)), "0.000");
    assert_eq!(text_of(Percent::from_millis(-1_234_567)), "-1234.567");
    assert_eq!(
        text_of(Percent::from_millis(i128::MIN)),
        "-170141183460469231731687303715884105.728"
    );
}

#[test]
fn percent_text_reads_back() {
    for millis in [0i128, 1, -1, 999, 1000, 100_000, -100_001, i128::MAX, i128::MIN + 1, i128::MIN] {
        let p = Percent::from_millis(millis);
        assert_eq!(Percent::parse(&text_of(p)), Some(p));
    }
}

#[test]
fn percent_halves_towards_zero() {
    assert_eq!(Percent::from_millis(10_000).half().millis(), 5_000);
    assert_eq!(Percent::from_millis(7).half().millis(), 3);
    assert_eq!(Percent::from_millis(-7).half().millis(), -3);
    assert_eq!(Percent::from_millis(i128::MIN).half().millis(), i128::MIN / 2);
    assert_eq!(Percent::from_whole(100).millis(), 100_000);
    assert!(Percent::from_whole(100).is_in_range());
    assert!(Percent::from_millis(0).is_in_range());
    assert!(!Percent::from_millis(100_001).is_in_range());
    assert!(!Percent::from_millis(-1).is_in_range());
}

#[test]
fn u64_reading_follows_the_decimal_rules() {
    assert_eq!(parse_u64("0"), Some(0));
    assert_eq!(parse_u64("+42"), Some(42));
    assert_eq!(parse_u64("00042"), Some(42));
    assert_eq!(parse_u64("18446744073709551615"), Some(u64::MAX));
    assert_eq!(parse_u64("18446744073709551616"), None);
    assert_eq!(parse_u64("340282366920938463463374607431768211456"), None);
    assert_eq!(parse_u64("-1"), None);
    assert_eq!(parse_u64(""), None);
    assert_eq!(parse_u64("+"), None);
    assert_eq!(parse_u64("++1"), None);
    assert_eq!(parse_u64("1_000"), None);
    assert_eq!(parse_u64("12a"), None);
}

#[test]
fn i32_reading_follows_the_decimal_rules() {
    assert_eq!(parse_i32("0"), Some(0));
    assert_eq!(parse_i32("-0"), Some(0));
    assert_eq!(parse_i32("+19"), Some(19));
    assert_eq!(parse_i32("-20"), Some(-20));
    assert_eq!(parse_i32("2147483647"), Some(i32::MAX));
    assert_eq!(parse_i32("2147483648"), None);
    assert_eq!(parse_i32("-2147483648"), Some(i32::MIN));
    assert_eq!(parse_i32("-2147483649"), None);
    assert_eq!(parse_i32("-"), None);
    assert_eq!(parse_i32("-+1"), None);
    assert_eq!(parse_i32("1.0"), None);
}
