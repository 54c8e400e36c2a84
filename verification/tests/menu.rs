use unit_converter::expression::try_parse_expression;
use unit_converter::menu::{
    render_result, select_mode, Mode, CHOICE_PROMPT, EXPRESSION_PROMPT, FROM_UNIT_PROMPT,
    INVALID_CHOICE, INVALID_FORMAT, INVALID_UNIT, MENU, TO_UNIT_PROMPT, VALUE_PROMPT,
};
use unit_converter::unit::Unit;

#[test]
fn one_selects_the_expression() {
    assert_eq!(select_mode("1"), Mode::Expression);
    assert_eq!(select_mode("1\n"), Mode::Expression);
    assert_eq!(select_mode("  1\r\n"), Mode::Expression);
}

#[test]
fn two_selects_the_questions() {
    assert_eq!(select_mode("2"), Mode::Manual);
    assert_eq!(select_mode("2\n"), Mode::Manual);
    assert_eq!(select_mode("\t2 "), Mode::Manual);
}

#[test]
fn anything_else_selects_nothing() {
    for choice in ["", "\n", "3", "0", "12", "1 2", "11", "one", "1.", "-1", "\u{661}", "2a"] {
        assert_eq!(select_mode(choice), Mode::Invalid, "{choice:?}");
    }
}

#[test]
fn the_result_line() {
    assert_eq!(
        render_result("10", Unit::Kilogram, "10000", Unit::Gram),
        "10 Kilogram = 10000 Gram"
    );
    assert_eq!(
        render_result("98.6", Unit::Fahrenheit, "37", Unit::Celsius),
        "98.6 Fahrenheit = 37 Celsius"
    );
    assert_eq!(render_result("", Unit::Meter, "", Unit::Meter), " Meter =  Meter");
}

#[test]
fn the_result_line_shows_numbers_as_they_are_formatted() {
    let value = 10.0f64;
    let result = 10000.0f64;
    let line = render_result(&format!("{value}"), Unit::Kilogram, &format!("{result}"), Unit::Gram);
    assert_eq!(line, format!("{} {:?} = {} {:?}", value, Unit::Kilogram, result, Unit::Gram));
}

#[test]
fn the_texts_of_the_program() {
    let menu: Vec<&str> = MENU.lines().collect();
    assert_eq!(
        menu,
        [
            "Unit Converter",
            "1. Use an expression (e.g., 10Kg -> g)",
            "2. Enter units and values manually",
        ]
    );
    assert_eq!(CHOICE_PROMPT, "Choose an option: ");
    assert_eq!(EXPRESSION_PROMPT, "Enter a conversion expression (e.g., 10Kg -> g): ");
    assert_eq!(FROM_UNIT_PROMPT, "Choose a unit to convert from: ");
    assert_eq!(TO_UNIT_PROMPT, "Choose a unit to convert to: ");
    assert_eq!(VALUE_PROMPT, "Enter the value to convert: ");
    assert_eq!(INVALID_CHOICE, "Invalid choice!");
    assert_eq!(INVALID_FORMAT, "Invalid format! Use '10Kg -> g'.");
    assert_eq!(INVALID_UNIT, "Invalid unit!");
}

#[test]
fn the_examples_in_the_texts_are_requests() {
    let request = Ok(Some(("10".to_string(), Unit::Kilogram, Unit::Gram)));
    assert_eq!(try_parse_expression("10Kg -> g"), request);
}
