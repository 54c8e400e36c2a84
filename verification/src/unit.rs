//! The units the converter knows, and the names by which a user may call
//! them.

use vstd::prelude::*;
use vstd::utf8::is_ascii_chars;
use crate::lowercase::{lowercase_of, to_lowercase};
use crate::text::{
    all_white_space, ascii_lowered, chars_of, lemma_trimmed_ignores_padding,
    lemma_trim_end_takes, lemma_trim_start_skips, lemma_trimmed_of_ascii,
    lemma_trimmed_of_lowered, trim, trimmed,
};

verus! {

/// A unit of measurement.
#[derive(Clone, Copy, Debug, PartialEq, Eq, Structural)]
pub enum Unit {
    Celsius,
    Fahrenheit,
    Kelvin,
    Meter,
    Kilometer,
    Gram,
    Kilogram,
    Pound,
    Second,
    Minute,
}

/// The physical quantity that a unit measures.
#[derive(Clone, Copy, Debug, PartialEq, Eq, Structural)]
pub enum Quantity {
    Temperature,
    Distance,
    Mass,
    Time,
}

/// The unit that the alias `alias` names. An alias is written in small
/// letters, in full or abbreviated; any other text names no unit.
pub open spec fn alias_unit(alias: Seq<char>) -> Result<Unit, ()> {
    if alias == "celsius"@ || alias == "c"@ {
        Ok(Unit::Celsius)
    } else if alias == "fahrenheit"@ || alias == "f"@ {
        Ok(Unit::Fahrenheit)
    } else if alias == "kelvin"@ || alias == "k"@ {
        Ok(Unit::Kelvin)
    } else if alias == "meter"@ || alias == "m"@ {
        Ok(Unit::Meter)
    } else if alias == "kilometer"@ || alias == "km"@ {
        Ok(Unit::Kilometer)
    } else if alias == "gram"@ || alias == "g"@ {
        Ok(Unit::Gram)
    } else if alias == "kilogram"@ || alias == "kg"@ {
        Ok(Unit::Kilogram)
    } else if alias == "pound"@ || alias == "lb"@ {
        Ok(Unit::Pound)
    } else if alias == "second"@ || alias == "s"@ {
        Ok(Unit::Second)
    } else if alias == "minute"@ || alias == "min"@ {
        Ok(Unit::Minute)
    } else {
        Err(())
    }
}

/// The unit that the text `input` names: the unit of the alias that is
/// left when the white space around `input` is removed and the rest is
/// put in lowercase.
pub open spec fn named_unit(input: Seq<char>) -> Result<Unit, ()> {
    alias_unit(lowercase_of(trimmed(input)))
}

/// The unit that a text of ASCII characters names.
pub open spec fn ascii_named_unit(input: Seq<char>) -> Result<Unit, ()> {
    alias_unit(ascii_lowered(trimmed(input)))
}

/// Whether `chars` spells the text `word`.
fn spells(chars: &Vec<char>, word: &str) -> (r: bool)
    ensures
        r == (chars@ == word@),
{
    let letters = chars_of(word);
    if chars.len() != letters.len() {
        return false;
    }
    let mut i: usize = 0;
    while i < chars.len()
        invariant
            i <= chars.len(),
            letters@ == word@,
            chars.len() == letters.len(),
            forall|j: int| 0 <= j < i ==> chars@[j] == letters@[j],
        decreases chars.len() - i,
    {
        if chars[i] != letters[i] {
            assert(chars@[i as int] != word@[i as int]);
            return false;
        }
        i += 1;
    }
    assert(chars@ =~= letters@);
    true
}

impl Unit {
    /// The quantity that this unit measures.
    pub open spec fn quantity(self) -> Quantity {
        match self {
            Unit::Celsius | Unit::Fahrenheit | Unit::Kelvin => Quantity::Temperature,
            Unit::Meter | Unit::Kilometer => Quantity::Distance,
            Unit::Gram | Unit::Kilogram | Unit::Pound => Quantity::Mass,
            Unit::Second | Unit::Minute => Quantity::Time,
        }
    }

    /// The name of this unit, as it is shown to the user.
    pub open spec fn name_text(self) -> Seq<char> {
        match self {
            Unit::Celsius => "Celsius"@,
            Unit::Fahrenheit => "Fahrenheit"@,
            Unit::Kelvin => "Kelvin"@,
            Unit::Meter => "Meter"@,
            Unit::Kilometer => "Kilometer"@,
            Unit::Gram => "Gram"@,
            Unit::Kilogram => "Kilogram"@,
            Unit::Pound => "Pound"@,
            Unit::Second => "Second"@,
            Unit::Minute => "Minute"@,
        }
    }

    /// The name of this unit, as it is shown to the user.
    pub fn name(self) -> (name: &'static str)
        ensures
            name@ == self.name_text(),
    {
        match self {
            Unit::Celsius => "Celsius",
            Unit::Fahrenheit => "Fahrenheit",
            Unit::Kelvin => "Kelvin",
            Unit::Meter => "Meter",
            Unit::Kilometer => "Kilometer",
            Unit::Gram => "Gram",
            Unit::Kilogram => "Kilogram",
            Unit::Pound => "Pound",
            Unit::Second => "Second",
            Unit::Minute => "Minute",
        }
    }

    /// The unit that `alias` names, where it is an alias as the table has
    /// it, letter for letter.
    pub fn from_alias(alias: &str) -> (r: Result<Unit, ()>)
        ensures
            r == alias_unit(alias@),
    {
        let name = chars_of(alias);
        if spells(&name, "celsius") || spells(&name, "c") {
            Ok(Unit::Celsius)
        } else if spells(&name, "fahrenheit") || spells(&name, "f") {
            Ok(Unit::Fahrenheit)
        } else if spells(&name, "kelvin") || spells(&name, "k") {
            Ok(Unit::Kelvin)
        } else if spells(&name, "meter") || spells(&name, "m") {
            Ok(Unit::Meter)
        } else if spells(&name, "kilometer") || spells(&name, "km") {
            Ok(Unit::Kilometer)
        } else if spells(&name, "gram") || spells(&name, "g") {
            Ok(Unit::Gram)
        } else if spells(&name, "kilogram") || spells(&name, "kg") {
            Ok(Unit::Kilogram)
        } else if spells(&name, "pound") || spells(&name, "lb") {
            Ok(Unit::Pound)
        } else if spells(&name, "second") || spells(&name, "s") {
            Ok(Unit::Second)
        } else if spells(&name, "minute") || spells(&name, "min") {
            Ok(Unit::Minute)
        } else {
            Err(())
        }
    }

    /// The unit that `input` names, whatever the case of its letters and
    /// the white space around it.
    pub fn from_str(input: &str) -> (r: Result<Unit, ()>)
        ensures
            r == named_unit(input@),
            is_ascii_chars(input@) ==> r == ascii_named_unit(input@),
    {
        let lowered = to_lowercase(trim(input));
        proof {
            if is_ascii_chars(input@) {
                lemma_trimmed_of_ascii(input@);
            }
        }
        Unit::from_alias(lowered.as_str())
    }
}

/// The unit that the user named with `unit_str`, which must name one.
pub fn get_unit(unit_str: &str) -> (unit: Unit)
    requires
        named_unit(unit_str@) is Ok,
    ensures
        named_unit(unit_str@) == Ok::<Unit, ()>(unit),
        is_ascii_chars(unit_str@) ==> ascii_named_unit(unit_str@) == Ok::<Unit, ()>(unit),
{
    match Unit::from_str(unit_str) {
        Ok(unit) => unit,
        Err(_) => unreached(),
    }
}

/// The unit that the user named with `unit_str`, or `None` where the text
/// names no unit.
pub fn try_get_unit(unit_str: &str) -> (unit: Option<Unit>)
    ensures
        match unit {
            Some(unit) => named_unit(unit_str@) == Ok::<Unit, ()>(unit),
            None => named_unit(unit_str@) is Err,
        },
        is_ascii_chars(unit_str@) ==> match unit {
            Some(unit) => ascii_named_unit(unit_str@) == Ok::<Unit, ()>(unit),
            None => ascii_named_unit(unit_str@) is Err,
        },
{
    if Unit::from_str(unit_str).is_ok() {
        Some(get_unit(unit_str))
    } else {
        None
    }
}

/// A text of small letters from `a` to `z`, at least one.
pub open spec fn is_small_letters(s: Seq<char>) -> bool {
    s.len() > 0 && forall|i: int| 0 <= i < s.len() ==> 'a' <= #[trigger] s[i] <= 'z'
}

proof fn lemma_small_letters_are_kept(s: Seq<char>)
    requires
        is_small_letters(s),
    ensures
        is_ascii_chars(s),
        trimmed(s) == s,
        ascii_lowered(s) == s,
{
    assert(s.take(0) =~= Seq::<char>::empty());
    lemma_trim_start_skips(s, 0);
    assert(s.skip(0) =~= s);
    assert(s.skip(s.len() as int) =~= Seq::<char>::empty());
    lemma_trim_end_takes(s, s.len() as int);
    assert(s.take(s.len() as int) =~= s);
    assert(ascii_lowered(s) =~= s);
}

/// The aliases of the table, letter by letter.
pub proof fn lemma_aliases_revealed()
    ensures
        "celsius"@ == seq!['c', 'e', 'l', 's', 'i', 'u', 's'],
        "c"@ == seq!['c'],
        "fahrenheit"@ == seq!['f', 'a', 'h', 'r', 'e', 'n', 'h', 'e', 'i', 't'],
        "f"@ == seq!['f'],
        "kelvin"@ == seq!['k', 'e', 'l', 'v', 'i', 'n'],
        "k"@ == seq!['k'],
        "meter"@ == seq!['m', 'e', 't', 'e', 'r'],
        "m"@ == seq!['m'],
        "kilometer"@ == seq!['k', 'i', 'l', 'o', 'm', 'e', 't', 'e', 'r'],
        "km"@ == seq!['k', 'm'],
        "gram"@ == seq!['g', 'r', 'a', 'm'],
        "g"@ == seq!['g'],
        "kilogram"@ == seq!['k', 'i', 'l', 'o', 'g', 'r', 'a', 'm'],
        "kg"@ == seq!['k', 'g'],
        "pound"@ == seq!['p', 'o', 'u', 'n', 'd'],
        "lb"@ == seq!['l', 'b'],
        "second"@ == seq!['s', 'e', 'c', 'o', 'n', 'd'],
        "s"@ == seq!['s'],
        "minute"@ == seq!['m', 'i', 'n', 'u', 't', 'e'],
        "min"@ == seq!['m', 'i', 'n'],
{
    reveal_strlit("celsius");
    reveal_strlit("c");
    reveal_strlit("fahrenheit");
    reveal_strlit("f");
    reveal_strlit("kelvin");
    reveal_strlit("k");
    reveal_strlit("meter");
    reveal_strlit("m");
    reveal_strlit("kilometer");
    reveal_strlit("km");
    reveal_strlit("gram");
    reveal_strlit("g");
    reveal_strlit("kilogram");
    reveal_strlit("kg");
    reveal_strlit("pound");
    reveal_strlit("lb");
    reveal_strlit("second");
    reveal_strlit("s");
    reveal_strlit("minute");
    reveal_strlit("min");
    assert("celsius"@ =~= seq!['c', 'e', 'l', 's', 'i', 'u', 's']);
    assert("c"@ =~= seq!['c']);
    assert("fahrenheit"@ =~= seq!['f', 'a', 'h', 'r', 'e', 'n', 'h', 'e', 'i', 't']);
    assert("f"@ =~= seq!['f']);
    assert("kelvin"@ =~= seq!['k', 'e', 'l', 'v', 'i', 'n']);
    assert("k"@ =~= seq!['k']);
    assert("meter"@ =~= seq!['m', 'e', 't', 'e', 'r']);
    assert("m"@ =~= seq!['m']);
    assert("kilometer"@ =~= seq!['k', 'i', 'l', 'o', 'm', 'e', 't', 'e', 'r']);
    assert("km"@ =~= seq!['k', 'm']);
    assert("gram"@ =~= seq!['g', 'r', 'a', 'm']);
    assert("g"@ =~= seq!['g']);
    assert("kilogram"@ =~= seq!['k', 'i', 'l', 'o', 'g', 'r', 'a', 'm']);
    assert("kg"@ =~= seq!['k', 'g']);
    assert("pound"@ =~= seq!['p', 'o', 'u', 'n', 'd']);
    assert("lb"@ =~= seq!['l', 'b']);
    assert("second"@ =~= seq!['s', 'e', 'c', 'o', 'n', 'd']);
    assert("s"@ =~= seq!['s']);
    assert("minute"@ =~= seq!['m', 'i', 'n', 'u', 't', 'e']);
    assert("min"@ =~= seq!['m', 'i', 'n']);
}

/// Every alias of the table is written in small letters, and names its
/// unit as it stands.
pub proof fn lemma_alias_names_its_unit(alias: Seq<char>)
    requires
        alias_unit(alias) is Ok,
    ensures
        is_small_letters(alias),
        ascii_named_unit(alias) == alias_unit(alias),
{
    lemma_aliases_revealed();
    assert(is_small_letters(alias));
    lemma_small_letters_are_kept(alias);
}

/// The names of the units, letter by letter.
pub proof fn lemma_names_revealed()
    ensures
        "Celsius"@ == seq!['C', 'e', 'l', 's', 'i', 'u', 's'],
        "Fahrenheit"@ == seq!['F', 'a', 'h', 'r', 'e', 'n', 'h', 'e', 'i', 't'],
        "Kelvin"@ == seq!['K', 'e', 'l', 'v', 'i', 'n'],
        "Meter"@ == seq!['M', 'e', 't', 'e', 'r'],
        "Kilometer"@ == seq!['K', 'i', 'l', 'o', 'm', 'e', 't', 'e', 'r'],
        "Gram"@ == seq!['G', 'r', 'a', 'm'],
        "Kilogram"@ == seq!['K', 'i', 'l', 'o', 'g', 'r', 'a', 'm'],
        "Pound"@ == seq!['P', 'o', 'u', 'n', 'd'],
        "Second"@ == seq!['S', 'e', 'c', 'o', 'n', 'd'],
        "Minute"@ == seq!['M', 'i', 'n', 'u', 't', 'e'],
{
    reveal_strlit("Celsius");
    reveal_strlit("Fahrenheit");
    reveal_strlit("Kelvin");
    reveal_strlit("Meter");
    reveal_strlit("Kilometer");
    reveal_strlit("Gram");
    reveal_strlit("Kilogram");
    reveal_strlit("Pound");
    reveal_strlit("Second");
    reveal_strlit("Minute");
    assert("Celsius"@ =~= seq!['C', 'e', 'l', 's', 'i', 'u', 's']);
    assert("Fahrenheit"@ =~= seq!['F', 'a', 'h', 'r', 'e', 'n', 'h', 'e', 'i', 't']);
    assert("Kelvin"@ =~= seq!['K', 'e', 'l', 'v', 'i', 'n']);
    assert("Meter"@ =~= seq!['M', 'e', 't', 'e', 'r']);
    assert("Kilometer"@ =~= seq!['K', 'i', 'l', 'o', 'm', 'e', 't', 'e', 'r']);
    assert("Gram"@ =~= seq!['G', 'r', 'a', 'm']);
    assert("Kilogram"@ =~= seq!['K', 'i', 'l', 'o', 'g', 'r', 'a', 'm']);
    assert("Pound"@ =~= seq!['P', 'o', 'u', 'n', 'd']);
    assert("Second"@ =~= seq!['S', 'e', 'c', 'o', 'n', 'd']);
    assert("Minute"@ =~= seq!['M', 'i', 'n', 'u', 't', 'e']);
}

/// The name under which a unit is shown names that unit.
pub proof fn lemma_name_names_its_unit(unit: Unit)
    ensures
        is_ascii_chars(unit.name_text()),
        ascii_named_unit(unit.name_text()) == Ok::<Unit, ()>(unit),
{
    lemma_names_revealed();
    lemma_aliases_revealed();
    let name = unit.name_text();
    let alias = ascii_lowered(name);
    assert(is_small_letters(alias));
    lemma_small_letters_are_kept(alias);
    lemma_trimmed_of_lowered(name);
    assert(alias_unit(alias) == Ok::<Unit, ()>(unit)) by {
        match unit {
            Unit::Celsius => assert(alias =~= "celsius"@),
            Unit::Fahrenheit => assert(alias =~= "fahrenheit"@),
            Unit::Kelvin => assert(alias =~= "kelvin"@),
            Unit::Meter => assert(alias =~= "meter"@),
            Unit::Kilometer => assert(alias =~= "kilometer"@),
            Unit::Gram => assert(alias =~= "gram"@),
            Unit::Kilogram => assert(alias =~= "kilogram"@),
            Unit::Pound => assert(alias =~= "pound"@),
            Unit::Second => assert(alias =~= "second"@),
            Unit::Minute => assert(alias =~= "minute"@),
        }
    }
}

/// White space around the name of a unit does not change which unit is
/// named.
pub proof fn lemma_white_space_around_a_name_is_ignored(
    before: Seq<char>,
    name: Seq<char>,
    after: Seq<char>,
)
    requires
        all_white_space(before),
        all_white_space(after),
    ensures
        named_unit(before + name + after) == named_unit(name),
        ascii_named_unit(before + name + after) == ascii_named_unit(name),
{
    lemma_trimmed_ignores_padding(before, name, after);
}

/// Two names that differ only in the case of their letters from `A` to
/// `Z` name the same unit, or both name none.
pub proof fn lemma_case_of_a_name_is_ignored(a: Seq<char>, b: Seq<char>)
    requires
        ascii_lowered(a) == ascii_lowered(b),
    ensures
        ascii_named_unit(a) == ascii_named_unit(b),
{
    lemma_trimmed_of_lowered(a);
    lemma_trimmed_of_lowered(b);
}

} // verus!
