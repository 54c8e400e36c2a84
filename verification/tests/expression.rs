use unit_converter::conversion::{Ratio, Step};
use unit_converter::expression::{
    has_malformed_number, is_number, parse_expression, split_at_arrow, split_number,
    try_parse_expression, MalformedNumber,
};
use unit_converter::unit::Unit;

fn constant(ratio: Ratio) -> f64 {
    ratio.0 as f64 / ratio.1 as f64
}

fn convert(value: f64, from: Unit, to: Unit) -> f64 {
    let mut v = value;
    for step in from.conversion(&to) {
        v = match step {
            Step::Add(c) => v + constant(c),
            Step::Subtract(c) => v - constant(c),
            Step::Multiply(c) => v * constant(c),
            Step::Divide(c) => v / constant(c),
        };
    }
    v
}

fn request(number: &str, from: Unit, to: Unit) -> Option<(String, Unit, Unit)> {
    Some((number.to_string(), from, to))
}

#[test]
fn kilograms_to_grams() {
    assert!(!has_malformed_number("10kg -> g"));
    let parsed = parse_expression("10kg -> g");
    assert_eq!(parsed, request("10", Unit::Kilogram, Unit::Gram));
    let (number, from, to) = parsed.unwrap();
    let value: f64 = number.parse().unwrap();
    assert_eq!(value, 10.0);
    assert_eq!(convert(value, from, to), 10000.0);
}

#[test]
fn fahrenheit_to_celsius() {
    assert!(!has_malformed_number("98.6F -> C"));
    let parsed = parse_expression("98.6F -> C");
    assert_eq!(parsed, request("98.6", Unit::Fahrenheit, Unit::Celsius));
    let (number, from, to) = parsed.unwrap();
    let value: f64 = number.parse().unwrap();
    assert_eq!(value, 98.6);
    assert!(f64::abs(convert(value, from, to) - 37.0) < 1e-9);
}

#[test]
fn the_example_of_the_menu() {
    assert_eq!(parse_expression("10Kg -> g"), request("10", Unit::Kilogram, Unit::Gram));
}

#[test]
fn no_arrow_is_no_request() {
    assert!(!has_malformed_number("garbage"));
    assert_eq!(parse_expression("garbage"), None);
    assert_eq!(parse_expression(""), None);
    assert_eq!(parse_expression("10kg g"), None);
    assert_eq!(parse_expression("10kg - > g"), None);
    assert_eq!(parse_expression("10kg >- g"), None);
    assert_eq!(parse_expression("10kg -"), None);
}

#[test]
fn unknown_unit_is_no_request() {
    assert!(!has_malformed_number("10xyz -> g"));
    assert_eq!(parse_expression("10xyz -> g"), None);
    assert_eq!(parse_expression("10kg -> xyz"), None);
    assert_eq!(parse_expression("10kg -> "), None);
    assert_eq!(parse_expression("10kg ->"), None);
}

#[test]
fn number_without_unit_is_no_request() {
    assert!(!has_malformed_number("10 -> g"));
    assert_eq!(parse_expression("10 -> g"), None);
    assert_eq!(parse_expression("10->g"), None);
}

#[test]
fn more_than_one_arrow_is_no_request() {
    assert!(!has_malformed_number("10kg -> g -> kg"));
    assert_eq!(parse_expression("10kg -> g -> kg"), None);
    assert_eq!(parse_expression("10kg ->-> g"), None);
    assert_eq!(parse_expression("->10kg -> g"), None);
    assert!(!has_malformed_number("kg -> g -> kg"));
    assert_eq!(parse_expression("kg -> g -> kg"), None);
}

#[test]
fn white_space_around_the_sides_is_ignored() {
    let want = request("10", Unit::Kilogram, Unit::Gram);
    assert_eq!(parse_expression("10kg->g"), want);
    assert_eq!(parse_expression("  10kg   ->   g  \n"), want);
    assert_eq!(parse_expression("\t10kg\t->\tg\r\n"), want);
    assert_eq!(parse_expression("10 kg -> g"), want);
    assert_eq!(parse_expression("10\u{a0}KG -> G"), want);
}

#[test]
fn white_space_inside_a_unit_name_is_kept() {
    assert_eq!(parse_expression("10k g -> g"), None);
    assert_eq!(parse_expression("10kg -> k g"), None);
}

#[test]
fn the_number_is_the_longest_run_of_digits_and_points() {
    assert_eq!(parse_expression("1.5km -> m"), request("1.5", Unit::Kilometer, Unit::Meter));
    assert_eq!(parse_expression("5.s -> min"), request("5.", Unit::Second, Unit::Minute));
    assert_eq!(parse_expression(".5s -> min"), request(".5", Unit::Second, Unit::Minute));
    assert_eq!(parse_expression("007lb -> kg"), request("007", Unit::Pound, Unit::Kilogram));
    assert_eq!(parse_expression("3c -> f"), request("3", Unit::Celsius, Unit::Fahrenheit));
    // The unit text begins where the number ends: a second number is not read.
    assert!(!has_malformed_number("1 2kg -> g"));
    assert_eq!(parse_expression("1 2kg -> g"), None);
    assert!(!has_malformed_number("1e3kg -> g"));
    assert_eq!(parse_expression("1e3kg -> g"), None);
}

#[test]
fn a_request_without_a_number_is_malformed() {
    assert!(has_malformed_number("kg -> g"));
    assert!(has_malformed_number(" -> g"));
    assert!(has_malformed_number("->"));
    assert!(has_malformed_number("-5c -> f"));
    assert!(has_malformed_number("+5c -> f"));
    assert!(has_malformed_number("abc -> xyz"));
}

#[test]
fn a_number_with_two_points_is_malformed() {
    assert!(has_malformed_number("1.2.3kg -> g"));
    assert!(has_malformed_number("..kg -> g"));
    assert!(has_malformed_number(".kg -> g"));
    assert!(has_malformed_number("1..kg -> g"));
}

#[test]
fn what_is_a_number_is_what_the_standard_library_reads() {
    for text in [
        "", ".", "..", "0", "1", "10", "98.6", "5.", ".5", "0.0", "1.2.3", "1..2", ".1.", "00.00",
        "123456789012345678901234567890", "1e3", "-1", "+1", "1 ", " 1", "inf", "NaN", "1_0",
        "\u{661}", "1,5",
    ] {
        let only_number_characters = text.chars().all(|c| c.is_ascii_digit() || c == '.');
        let read = text.parse::<f64>().is_ok();
        assert_eq!(is_number(text), only_number_characters && read, "{text:?}");
    }
}

#[test]
fn every_number_of_a_request_is_read_by_the_standard_library() {
    for expression in [
        "10kg -> g",
        "98.6F -> C",
        "5.s -> min",
        ".5s -> min",
        "1.2.3kg -> g",
        "kg -> g",
        ".kg -> g",
        "1 2kg -> g",
        "00012.500lb -> kg",
    ] {
        let (left, _) = split_at_arrow(expression).unwrap();
        let (number, _) = split_number(left);
        assert_eq!(
            has_malformed_number(expression),
            number.parse::<f64>().is_err(),
            "{expression:?}"
        );
    }
}

#[test]
fn split_at_arrow_gives_the_trimmed_sides() {
    assert_eq!(split_at_arrow("10kg -> g"), Some(("10kg", "g")));
    assert_eq!(split_at_arrow("  a b  ->  c d  "), Some(("a b", "c d")));
    assert_eq!(split_at_arrow("->"), Some(("", "")));
    assert_eq!(split_at_arrow("-->"), Some(("-", "")));
    assert_eq!(split_at_arrow("->>"), Some(("", ">")));
    assert_eq!(split_at_arrow("\u{e9}t\u{e9} -> \u{fc}"), Some(("\u{e9}t\u{e9}", "\u{fc}")));
    assert_eq!(split_at_arrow("a - > b"), None);
    assert_eq!(split_at_arrow("a -> b -> c"), None);
    assert_eq!(split_at_arrow("a ->-> c"), None);
    assert_eq!(split_at_arrow(""), None);
    assert_eq!(split_at_arrow("-"), None);
    assert_eq!(split_at_arrow(">"), None);
}

#[test]
fn split_at_arrow_agrees_with_splitting_by_the_standard_library() {
    for text in [
        "", "a", "->", "a->b", "a -> b", "a->b->c", "->->", "-->", "->>", "--->", "a - > b", "->a",
        "a->", " -> ", "\u{2192}", "a\u{2192}b", "10kg -> g",
    ] {
        let parts: Vec<&str> = text.split("->").map(|s| s.trim()).collect();
        let want = if parts.len() == 2 { Some((parts[0], parts[1])) } else { None };
        assert_eq!(split_at_arrow(text), want, "{text:?}");
    }
}

#[test]
fn split_number_parts_after_the_number() {
    assert_eq!(split_number("10kg"), ("10", "kg"));
    assert_eq!(split_number("98.6F"), ("98.6", "F"));
    assert_eq!(split_number("1.2.3 kg"), ("1.2.3", " kg"));
    assert_eq!(split_number("kg"), ("", "kg"));
    assert_eq!(split_number("10"), ("10", ""));
    assert_eq!(split_number(""), ("", ""));
    assert_eq!(split_number("1e3"), ("1", "e3"));
    assert_eq!(split_number("-1"), ("", "-1"));
    assert_eq!(split_number("\u{661}2"), ("", "\u{661}2"));
    assert_eq!(split_number("12\u{e9}3"), ("12", "\u{e9}3"));
}

#[test]
fn try_parse_expression_reports_a_malformed_number() {
    assert_eq!(try_parse_expression("kg -> g"), Err(MalformedNumber));
    assert_eq!(try_parse_expression("1.2.3kg -> g"), Err(MalformedNumber));
    assert_eq!(try_parse_expression(" -> "), Err(MalformedNumber));
    // The number is read before the units are looked at.
    assert_eq!(try_parse_expression("abc -> xyz"), Err(MalformedNumber));
    assert_eq!(try_parse_expression(".xyz -> g"), Err(MalformedNumber));
}

#[test]
fn try_parse_expression_agrees_with_parse_expression() {
    for expression in [
        "10kg -> g",
        "98.6F -> C",
        "garbage",
        "10xyz -> g",
        "10 -> g",
        "10kg -> g -> kg",
        "kg -> g -> kg",
        "5.s -> min",
        "",
    ] {
        assert!(!has_malformed_number(expression), "{expression:?}");
        assert_eq!(try_parse_expression(expression), Ok(parse_expression(expression)));
    }
    assert_eq!(
        try_parse_expression("10kg -> g"),
        Ok(Some(("10".to_string(), Unit::Kilogram, Unit::Gram)))
    );
    assert_eq!(try_parse_expression("garbage"), Ok(None));
    assert_eq!(try_parse_expression("10xyz -> g"), Ok(None));
}
