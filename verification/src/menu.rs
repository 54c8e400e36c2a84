//! The texts of the program, what it does with the user's choice of mode,
//! and the line in which it reports a result.

use vstd::prelude::*;
use vstd::string::StringExecFns;
use crate::text::{chars_of, trim, trimmed};
use crate::unit::Unit;

verus! {

/// The menu that the program opens with.
pub const MENU: &'static str =
    "Unit Converter\n1. Use an expression (e.g., 10Kg -> g)\n2. Enter units and values manually";

/// The question that follows the menu.
pub const CHOICE_PROMPT: &'static str = "Choose an option: ";

/// The question that asks for a request on one line.
pub const EXPRESSION_PROMPT: &'static str = "Enter a conversion expression (e.g., 10Kg -> g): ";

/// The question that asks for the unit a value is given in.
pub const FROM_UNIT_PROMPT: &'static str = "Choose a unit to convert from: ";

/// The question that asks for the unit a value is to be converted to.
pub const TO_UNIT_PROMPT: &'static str = "Choose a unit to convert to: ";

/// The question that asks for the value.
pub const VALUE_PROMPT: &'static str = "Enter the value to convert: ";

/// The answer to a choice that selects no mode.
pub const INVALID_CHOICE: &'static str = "Invalid choice!";

/// What the program says of a text that names no unit where one is asked
/// for.
pub const INVALID_UNIT: &'static str = "Invalid unit!";

/// The answer to an expression that states no request.
pub const INVALID_FORMAT: &'static str = "Invalid format! Use '10Kg -> g'.";

/// The ways of stating a conversion request, and the answer that chooses
/// neither.
#[derive(Clone, Copy, Debug, PartialEq, Eq, Structural)]
pub enum Mode {
    /// The request is written on one line, as in `10kg -> g`.
    Expression,
    /// The units and the value are asked for one by one.
    Manual,
    /// Neither: no conversion is made.
    Invalid,
}

/// The mode that the answer `choice` selects: `1` the expression, `2` the
/// questions, white space around it ignored, and anything else neither.
pub open spec fn chosen_mode(choice: Seq<char>) -> Mode {
    if trimmed(choice) == seq!['1'] {
        Mode::Expression
    } else if trimmed(choice) == seq!['2'] {
        Mode::Manual
    } else {
        Mode::Invalid
    }
}

/// The mode that the user's answer to the menu selects.
pub fn select_mode(choice: &str) -> (mode: Mode)
    ensures
        mode == chosen_mode(choice@),
{
    let answer = chars_of(trim(choice));
    if answer.len() == 1 && answer[0] == '1' {
        assert(answer@ =~= seq!['1']);
        Mode::Expression
    } else if answer.len() == 1 && answer[0] == '2' {
        assert(answer@ =~= seq!['2']);
        Mode::Manual
    } else {
        assert(answer@ != seq!['1'] && answer@ != seq!['2']) by {
            if answer@.len() == 1 {
                assert(seq!['1'][0] == '1' && seq!['2'][0] == '2');
            }
        }
        Mode::Invalid
    }
}

/// The line that reports a conversion: the value and the unit it was given
/// in, an equals sign, the result and the unit asked for.
pub open spec fn result_line(
    value: Seq<char>,
    from: Unit,
    result: Seq<char>,
    to: Unit,
) -> Seq<char> {
    value + seq![' '] + from.name_text() + seq![' ', '=', ' '] + result + seq![' ']
        + to.name_text()
}

/// The line that reports that `value` in `from` is `result` in `to`, the
/// two numbers given as they are to be shown.
pub fn render_result(value: &str, from: Unit, result: &str, to: Unit) -> (line: String)
    ensures
        line@ == result_line(value@, from, result@, to),
{
    proof {
        reveal_strlit(" ");
        reveal_strlit(" = ");
        assert(" "@ =~= seq![' ']);
        assert(" = "@ =~= seq![' ', '=', ' ']);
    }
    let mut line = String::new();
    line.append(value);
    line.append(" ");
    line.append(from.name());
    line.append(" = ");
    line.append(result);
    line.append(" ");
    line.append(to.name());
    assert(line@ =~= result_line(value@, from, result@, to));
    line
}

} // verus!
