//! Conversion requests written on one line: a number, the unit it is given
//! in, an arrow, and the unit asked for, as in `10kg -> g`.

use vstd::prelude::*;
use vstd::utf8::is_ascii_chars;
use crate::text::{
    chars_of, is_number_char, lemma_part_of_ascii, lemma_trimmed_of_ascii, trim, trimmed,
};
use crate::unit::{ascii_named_unit, named_unit, Unit};

verus! {

/// What is reported of an expression that has the shape of a request but
/// does not begin with a number.
#[derive(Clone, Copy, Debug, PartialEq, Eq, Structural)]
pub struct MalformedNumber;

/// An arrow `->` stands in `s` at index `i`.
pub open spec fn arrow_at(s: Seq<char>, i: int) -> bool {
    0 <= i && i + 1 < s.len() && s[i] == '-' && s[i + 1] == '>'
}

/// The arrow at index `i` is the only one in `s`.
pub open spec fn only_arrow_at(s: Seq<char>, i: int) -> bool {
    arrow_at(s, i) && forall|j: int| arrow_at(s, j) ==> j == i
}

/// `s` holds exactly one arrow: it has a left side and a right side, and
/// no more.
pub open spec fn has_one_arrow(s: Seq<char>) -> bool {
    exists|i: int| only_arrow_at(s, i)
}

/// Where the arrow of `s` stands.
pub open spec fn arrow_index(s: Seq<char>) -> int {
    choose|i: int| arrow_at(s, i)
}

/// What stands left of the arrow, without the white space around it.
pub open spec fn left_side(s: Seq<char>) -> Seq<char> {
    trimmed(s.take(arrow_index(s)))
}

/// What stands right of the arrow, without the white space around it.
pub open spec fn right_side(s: Seq<char>) -> Seq<char> {
    trimmed(s.skip(arrow_index(s) + 2))
}

/// The number of characters at the start of `s` of which a number is
/// written.
pub open spec fn number_length(s: Seq<char>) -> nat
    decreases s.len(),
{
    if s.len() > 0 && is_number_char(s[0]) {
        1 + number_length(s.drop_first())
    } else {
        0
    }
}

/// The number that a request begins with, as it is written.
pub open spec fn number_text(s: Seq<char>) -> Seq<char> {
    left_side(s).take(number_length(left_side(s)) as int)
}

/// The text that follows the number and names the unit it is given in.
pub open spec fn unit_text(s: Seq<char>) -> Seq<char> {
    left_side(s).skip(number_length(left_side(s)) as int)
}

/// `text` is a number written in digits, with at most one point: at least
/// one digit, no sign and no exponent.
pub open spec fn is_number_text(text: Seq<char>) -> bool {
    &&& forall|i: int| 0 <= i < text.len() ==> is_number_char(#[trigger] text[i])
    &&& exists|i: int| 0 <= i < text.len() && '0' <= #[trigger] text[i] <= '9'
    &&& forall|i: int, j: int|
        #![trigger text[i], text[j]]
        0 <= i < j < text.len() && text[i] == '.' ==> text[j] != '.'
}

/// `s` has the shape of a request, and what it begins with is not a
/// number: there is no value to convert.
pub open spec fn number_is_malformed(s: Seq<char>) -> bool {
    has_one_arrow(s) && !is_number_text(number_text(s))
}

/// The request that `s` states, the units named as `name` says: the
/// number as it is written, the unit it is given in, and the unit asked
/// for. There is none where `s` has not exactly one arrow, or a unit is
/// not named.
pub open spec fn request_by(
    s: Seq<char>,
    name: spec_fn(Seq<char>) -> Result<Unit, ()>,
) -> Option<(Seq<char>, Unit, Unit)> {
    if has_one_arrow(s) {
        match (name(unit_text(s)), name(right_side(s))) {
            (Ok(from), Ok(to)) => Some((number_text(s), from, to)),
            _ => None,
        }
    } else {
        None
    }
}

/// The request that `s` states.
pub open spec fn request(s: Seq<char>) -> Option<(Seq<char>, Unit, Unit)> {
    request_by(s, |text: Seq<char>| named_unit(text))
}

/// The request that a text of ASCII characters states.
pub open spec fn ascii_request(s: Seq<char>) -> Option<(Seq<char>, Unit, Unit)> {
    request_by(s, |text: Seq<char>| ascii_named_unit(text))
}

/// `parsed` is the request `stated`, the number taken by its text.
pub open spec fn is_request(
    parsed: Option<(String, Unit, Unit)>,
    stated: Option<(Seq<char>, Unit, Unit)>,
) -> bool {
    match (parsed, stated) {
        (Some((number, from, to)), Some(request)) => (number@, from, to) == request,
        (None, None) => true,
        _ => false,
    }
}

/// Where `s` has exactly one arrow, `arrow_index` names it.
pub proof fn lemma_arrow_index(s: Seq<char>, i: int)
    requires
        only_arrow_at(s, i),
    ensures
        has_one_arrow(s),
        arrow_index(s) == i,
{
}

/// Two arrows in `s`: it has not exactly one.
proof fn lemma_two_arrows(s: Seq<char>, i: int, j: int)
    requires
        arrow_at(s, i),
        arrow_at(s, j),
        i != j,
    ensures
        !has_one_arrow(s),
{
}

/// Where the first `n` characters of `s` are those of a number and the
/// next one is not, the number has length `n`.
pub proof fn lemma_number_length(s: Seq<char>, n: int)
    requires
        0 <= n <= s.len(),
        forall|i: int| 0 <= i < n ==> is_number_char(#[trigger] s[i]),
        n < s.len() ==> !is_number_char(s[n]),
    ensures
        number_length(s) == n,
    decreases n,
{
    if n > 0 {
        let rest = s.drop_first();
        assert forall|i: int| 0 <= i < n - 1 implies is_number_char(#[trigger] rest[i]) by {
            assert(rest[i] == s[i + 1]);
        }
        lemma_number_length(rest, n - 1);
    }
}

/// A number at the start of `s` is no longer than `s`.
pub proof fn lemma_number_length_bound(s: Seq<char>)
    ensures
        number_length(s) <= s.len(),
    decreases s.len(),
{
    if s.len() > 0 && is_number_char(s[0]) {
        lemma_number_length_bound(s.drop_first());
    }
}

/// The index of the arrow of `chars`, where there is exactly one.
fn find_arrow(chars: &Vec<char>) -> (found: Option<usize>)
    ensures
        match found {
            Some(i) => only_arrow_at(chars@, i as int),
            None => !has_one_arrow(chars@),
        },
{
    let mut found: Option<usize> = None;
    let mut i: usize = 0;
    while i < chars.len()
        invariant
            i <= chars.len(),
            match found {
                Some(k) => k < i && arrow_at(chars@, k as int) && forall|j: int|
                    j < i && arrow_at(chars@, j) ==> j == k,
                None => forall|j: int| j < i ==> !arrow_at(chars@, j),
            },
        decreases chars.len() - i,
    {
        if chars[i] == '-' && i + 1 < chars.len() && chars[i + 1] == '>' {
            match found {
                Some(k) => {
                    proof {
                        lemma_two_arrows(chars@, k as int, i as int);
                    }
                    return None;
                },
                None => {
                    found = Some(i);
                },
            }
        }
        i += 1;
    }
    found
}

/// The two sides of a request, each without the white space around it,
/// where `expression` has exactly one arrow.
pub fn split_at_arrow(expression: &str) -> (sides: Option<(&str, &str)>)
    ensures
        sides is Some <==> has_one_arrow(expression@),
        sides matches Some((left, right)) ==> left@ == left_side(expression@) && right@
            == right_side(expression@),
{
    let chars = chars_of(expression);
    let end: usize = chars.len();
    match find_arrow(&chars) {
        Some(i) => {
            proof {
                lemma_arrow_index(expression@, i as int);
                assert(expression@.take(i as int) =~= expression@.subrange(0, i as int));
                assert(expression@.skip(i + 2) =~= expression@.subrange(
                    i + 2,
                    expression@.len() as int,
                ));
            }
            let left = expression.substring_char(0, i);
            let right = expression.substring_char(i + 2, end);
            Some((trim(left), trim(right)))
        },
        None => None,
    }
}

/// `text`, parted after the number it begins with.
pub fn split_number(text: &str) -> (parts: (&str, &str))
    ensures
        parts.0@ == text@.take(number_length(text@) as int),
        parts.1@ == text@.skip(number_length(text@) as int),
{
    let chars = chars_of(text);
    let mut n: usize = 0;
    while n < chars.len() && is_number_char(chars[n])
        invariant
            n <= chars.len(),
            forall|i: int| 0 <= i < n ==> is_number_char(#[trigger] chars@[i]),
        decreases chars.len() - n,
    {
        n += 1;
    }
    proof {
        lemma_number_length(text@, n as int);
        assert(text@.take(n as int) =~= text@.subrange(0, n as int));
        assert(text@.skip(n as int) =~= text@.subrange(n as int, text@.len() as int));
    }
    (text.substring_char(0, n), text.substring_char(n, chars.len()))
}

/// Whether `text` is a number written in digits, with at most one point.
pub fn is_number(text: &str) -> (r: bool)
    ensures
        r == is_number_text(text@),
{
    let chars = chars_of(text);
    let mut digit: bool = false;
    let mut point: bool = false;
    let mut i: usize = 0;
    while i < chars.len()
        invariant
            i <= chars.len(),
            chars@ == text@,
            forall|j: int| 0 <= j < i ==> is_number_char(#[trigger] chars@[j]),
            digit <==> exists|j: int| 0 <= j < i && '0' <= #[trigger] chars@[j] <= '9',
            point <==> exists|j: int| 0 <= j < i && #[trigger] chars@[j] == '.',
            forall|j: int, k: int|
                #![trigger chars@[j], chars@[k]]
                0 <= j < k < i && chars@[j] == '.' ==> chars@[k] != '.',
        decreases chars.len() - i,
    {
        let c: char = chars[i];
        if c == '.' {
            if point {
                proof {
                    let j: int = choose|j: int| 0 <= j < i && #[trigger] chars@[j] == '.';
                    assert(chars@[j] == '.' && chars@[i as int] == '.');
                }
                return false;
            }
            point = true;
        } else if is_number_char(c) {
            digit = true;
        } else {
            assert(!is_number_char(chars@[i as int]));
            return false;
        }
        i += 1;
    }
    digit
}

/// Whether `expression` has the shape of a request but does not begin
/// with a number. Such an expression cannot be parsed.
pub fn has_malformed_number(expression: &str) -> (r: bool)
    ensures
        r == number_is_malformed(expression@),
{
    match split_at_arrow(expression) {
        Some((left, _)) => !is_number(split_number(left).0),
        None => false,
    }
}

/// The request that `expression` states: the number as it is written, the
/// unit it is given in and the unit asked for. `Ok(None)` where the
/// expression has not exactly one arrow or does not name two units;
/// `MalformedNumber` where it has the shape of a request but does not
/// begin with a number, whatever units it names.
pub fn try_parse_expression(expression: &str) -> (parsed: Result<
    Option<(String, Unit, Unit)>,
    MalformedNumber,
>)
    ensures
        parsed is Err <==> number_is_malformed(expression@),
        parsed matches Ok(found) ==> {
            &&& is_request(found, request(expression@))
            &&& is_ascii_chars(expression@) ==> is_request(found, ascii_request(expression@))
            &&& found matches Some((number, _, _)) ==> is_number_text(number@)
        },
{
    match split_at_arrow(expression) {
        Some((left, right)) => {
            let (number, unit) = split_number(left);
            if !is_number(number) {
                return Err(MalformedNumber);
            }
            proof {
                if is_ascii_chars(expression@) {
                    let at: int = arrow_index(expression@);
                    lemma_part_of_ascii(expression@, 0, at);
                    lemma_part_of_ascii(expression@, at + 2, expression@.len() as int);
                    lemma_trimmed_of_ascii(expression@.take(at));
                    lemma_trimmed_of_ascii(expression@.skip(at + 2));
                    let n: int = number_length(left@) as int;
                    lemma_number_length_bound(left@);
                    lemma_part_of_ascii(left@, n, left@.len() as int);
                }
            }
            match (Unit::from_str(unit), Unit::from_str(right)) {
                (Ok(from), Ok(to)) => Ok(Some((number.to_owned(), from, to))),
                _ => Ok(None),
            }
        },
        None => Ok(None),
    }
}

/// The request that `expression` states, which must not have a malformed
/// number: the number as it is written, the unit it is given in and the
/// unit asked for. `None` where the expression has not exactly one arrow
/// or does not name two units.
pub fn parse_expression(expression: &str) -> (parsed: Option<(String, Unit, Unit)>)
    requires
        !number_is_malformed(expression@),
    ensures
        is_request(parsed, request(expression@)),
        is_ascii_chars(expression@) ==> is_request(parsed, ascii_request(expression@)),
        parsed matches Some((number, _, _)) ==> is_number_text(number@),
{
    match try_parse_expression(expression) {
        Ok(parsed) => parsed,
        Err(_) => unreached(),
    }
}

} // verus!
