//! The conversion table.
//!
//! A conversion is a short list of arithmetic steps over exact constants.
//! The table says which steps lead from one unit to another; carrying them
//! out on machine numbers is left to the caller, who applies the steps in
//! order. The meaning of a formula is given here over the real numbers,
//! where the laws of the table are proved.

use vstd::prelude::*;
use crate::unit::Unit;

verus! {

/// A non-negative constant, written as numerator and denominator.
#[derive(Clone, Copy, Debug, PartialEq, Eq, Structural)]
pub struct Ratio(pub u32, pub u32);

impl Ratio {
    /// The number that the fraction stands for.
    pub open spec fn value(self) -> real {
        self.0 as real / self.1 as real
    }
}

/// One arithmetic step of a conversion formula.
#[derive(Clone, Copy, Debug, PartialEq, Eq, Structural)]
pub enum Step {
    Add(Ratio),
    Subtract(Ratio),
    Multiply(Ratio),
    Divide(Ratio),
}

impl Step {
    /// The constant of this step.
    pub open spec fn operand(self) -> Ratio {
        match self {
            Step::Add(c) => c,
            Step::Subtract(c) => c,
            Step::Multiply(c) => c,
            Step::Divide(c) => c,
        }
    }

    /// The step can be carried out: its constant has a denominator other
    /// than zero, and a divisor is not zero.
    pub open spec fn well_formed(self) -> bool {
        &&& self.operand().1 > 0
        &&& self is Divide ==> self.operand().0 > 0
    }

    /// The result of this step on `v`.
    pub open spec fn apply(self, v: real) -> real {
        match self {
            Step::Add(c) => v + c.value(),
            Step::Subtract(c) => v - c.value(),
            Step::Multiply(c) => v * c.value(),
            Step::Divide(c) => v / c.value(),
        }
    }
}

/// The result of the steps, carried out on `v` from first to last.
pub open spec fn evaluate(steps: Seq<Step>, v: real) -> real
    decreases steps.len(),
{
    if steps.len() == 0 {
        v
    } else {
        evaluate(steps.drop_first(), steps[0].apply(v))
    }
}

/// The pairs of units between which a formula is defined.
pub open spec fn has_formula(from: Unit, to: Unit) -> bool {
    match (from, to) {
        (Unit::Celsius, Unit::Fahrenheit) | (Unit::Fahrenheit, Unit::Celsius) => true,
        (Unit::Celsius, Unit::Kelvin) | (Unit::Kelvin, Unit::Celsius) => true,
        (Unit::Fahrenheit, Unit::Kelvin) | (Unit::Kelvin, Unit::Fahrenheit) => true,
        (Unit::Meter, Unit::Kilometer) | (Unit::Kilometer, Unit::Meter) => true,
        (Unit::Gram, Unit::Kilogram) | (Unit::Kilogram, Unit::Gram) => true,
        (Unit::Pound, Unit::Kilogram) | (Unit::Kilogram, Unit::Pound) => true,
        (Unit::Second, Unit::Minute) | (Unit::Minute, Unit::Second) => true,
        _ => false,
    }
}

/// The steps that take a value in `from` to the same quantity in `to`. A
/// pair without a formula has no steps: the value passes unchanged.
pub open spec fn formula(from: Unit, to: Unit) -> Seq<Step> {
    match (from, to) {
        (Unit::Celsius, Unit::Fahrenheit) => seq![
            Step::Multiply(Ratio(18, 10)),
            Step::Add(Ratio(32, 1)),
        ],
        (Unit::Fahrenheit, Unit::Celsius) => seq![
            Step::Subtract(Ratio(32, 1)),
            Step::Divide(Ratio(18, 10)),
        ],
        (Unit::Celsius, Unit::Kelvin) => seq![Step::Add(Ratio(27315, 100))],
        (Unit::Kelvin, Unit::Celsius) => seq![Step::Subtract(Ratio(27315, 100))],
        (Unit::Fahrenheit, Unit::Kelvin) => seq![
            Step::Subtract(Ratio(32, 1)),
            Step::Divide(Ratio(18, 10)),
            Step::Add(Ratio(27315, 100)),
        ],
        (Unit::Kelvin, Unit::Fahrenheit) => seq![
            Step::Subtract(Ratio(27315, 100)),
            Step::Multiply(Ratio(18, 10)),
            Step::Add(Ratio(32, 1)),
        ],
        (Unit::Meter, Unit::Kilometer) => seq![Step::Divide(Ratio(1000, 1))],
        (Unit::Kilometer, Unit::Meter) => seq![Step::Multiply(Ratio(1000, 1))],
        (Unit::Gram, Unit::Kilogram) => seq![Step::Divide(Ratio(1000, 1))],
        (Unit::Kilogram, Unit::Gram) => seq![Step::Multiply(Ratio(1000, 1))],
        (Unit::Pound, Unit::Kilogram) => seq![Step::Multiply(Ratio(453592, 1000000))],
        (Unit::Kilogram, Unit::Pound) => seq![Step::Divide(Ratio(453592, 1000000))],
        (Unit::Second, Unit::Minute) => seq![Step::Divide(Ratio(60, 1))],
        (Unit::Minute, Unit::Second) => seq![Step::Multiply(Ratio(60, 1))],
        _ => seq![],
    }
}

/// The value `v`, given in `from`, expressed in `to`.
pub open spec fn converted(v: real, from: Unit, to: Unit) -> real {
    match (from, to) {
        (Unit::Celsius, Unit::Fahrenheit) => v * (18real / 10real) + 32real,
        (Unit::Fahrenheit, Unit::Celsius) => (v - 32real) / (18real / 10real),
        (Unit::Celsius, Unit::Kelvin) => v + 27315real / 100real,
        (Unit::Kelvin, Unit::Celsius) => v - 27315real / 100real,
        (Unit::Fahrenheit, Unit::Kelvin) => (v - 32real) / (18real / 10real) + 27315real / 100real,
        (Unit::Kelvin, Unit::Fahrenheit) => (v - 27315real / 100real) * (18real / 10real) + 32real,
        (Unit::Meter, Unit::Kilometer) => v / 1000real,
        (Unit::Kilometer, Unit::Meter) => v * 1000real,
        (Unit::Gram, Unit::Kilogram) => v / 1000real,
        (Unit::Kilogram, Unit::Gram) => v * 1000real,
        (Unit::Pound, Unit::Kilogram) => v * (453592real / 1000000real),
        (Unit::Kilogram, Unit::Pound) => v / (453592real / 1000000real),
        (Unit::Second, Unit::Minute) => v / 60real,
        (Unit::Minute, Unit::Second) => v * 60real,
        _ => v,
    }
}

impl Unit {
    /// The steps that convert a value in this unit to `to`, in the order in
    /// which they are to be carried out.
    pub fn conversion(&self, to: &Unit) -> (steps: Vec<Step>)
        ensures
            steps@ == formula(*self, *to),
            steps@.len() == 0 <==> !has_formula(*self, *to),
            forall|i: int| 0 <= i < steps@.len() ==> (#[trigger] steps@[i]).well_formed(),
            forall|v: real| #[trigger] evaluate(steps@, v) == converted(v, *self, *to),
    {
        let steps = match (*self, *to) {
            (Unit::Celsius, Unit::Fahrenheit) => vec![
                Step::Multiply(Ratio(18, 10)),
                Step::Add(Ratio(32, 1)),
            ],
            (Unit::Fahrenheit, Unit::Celsius) => vec![
                Step::Subtract(Ratio(32, 1)),
                Step::Divide(Ratio(18, 10)),
            ],
            (Unit::Celsius, Unit::Kelvin) => vec![Step::Add(Ratio(27315, 100))],
            (Unit::Kelvin, Unit::Celsius) => vec![Step::Subtract(Ratio(27315, 100))],
            (Unit::Fahrenheit, Unit::Kelvin) => vec![
                Step::Subtract(Ratio(32, 1)),
                Step::Divide(Ratio(18, 10)),
                Step::Add(Ratio(27315, 100)),
            ],
            (Unit::Kelvin, Unit::Fahrenheit) => vec![
                Step::Subtract(Ratio(27315, 100)),
                Step::Multiply(Ratio(18, 10)),
                Step::Add(Ratio(32, 1)),
            ],
            (Unit::Meter, Unit::Kilometer) => vec![Step::Divide(Ratio(1000, 1))],
            (Unit::Kilometer, Unit::Meter) => vec![Step::Multiply(Ratio(1000, 1))],
            (Unit::Gram, Unit::Kilogram) => vec![Step::Divide(Ratio(1000, 1))],
            (Unit::Kilogram, Unit::Gram) => vec![Step::Multiply(Ratio(1000, 1))],
            (Unit::Pound, Unit::Kilogram) => vec![Step::Multiply(Ratio(453592, 1000000))],
            (Unit::Kilogram, Unit::Pound) => vec![Step::Divide(Ratio(453592, 1000000))],
            (Unit::Second, Unit::Minute) => vec![Step::Divide(Ratio(60, 1))],
            (Unit::Minute, Unit::Second) => vec![Step::Multiply(Ratio(60, 1))],
            _ => vec![],
        };
        proof {
            assert(steps@ =~= formula(*self, *to));
            assert forall|v: real| #[trigger] evaluate(steps@, v) == converted(v, *self, *to) by {
                lemma_formula_meaning(v, *self, *to);
            }
        }
        steps
    }
}

proof fn lemma_evaluate_short(a: Step, b: Step, c: Step, v: real)
    ensures
        evaluate(seq![], v) == v,
        evaluate(seq![a], v) == a.apply(v),
        evaluate(seq![a, b], v) == b.apply(a.apply(v)),
        evaluate(seq![a, b, c], v) == c.apply(b.apply(a.apply(v))),
{
    reveal_with_fuel(evaluate, 4);
    assert(seq![a].drop_first() =~= seq![]);
    assert(seq![a, b].drop_first() =~= seq![b]);
    assert(seq![b].drop_first() =~= seq![]);
    assert(seq![a, b, c].drop_first() =~= seq![b, c]);
    assert(seq![b, c].drop_first() =~= seq![c]);
    assert(seq![c].drop_first() =~= seq![]);
}

/// Carried out over the real numbers, the steps of the table give the
/// converted value.
pub proof fn lemma_formula_meaning(v: real, from: Unit, to: Unit)
    ensures
        evaluate(formula(from, to), v) == converted(v, from, to),
{
    assert(32real / 1real == 32real);
    assert(1000real / 1real == 1000real);
    assert(60real / 1real == 60real);
    let steps = formula(from, to);
    if steps.len() == 0 {
        assert(steps =~= seq![]);
        let unused = Step::Add(Ratio(0, 1));
        lemma_evaluate_short(unused, unused, unused, v);
    } else if steps.len() == 1 {
        assert(steps =~= seq![steps[0]]);
        lemma_evaluate_short(steps[0], steps[0], steps[0], v);
    } else if steps.len() == 2 {
        assert(steps =~= seq![steps[0], steps[1]]);
        lemma_evaluate_short(steps[0], steps[1], steps[1], v);
    } else {
        assert(steps =~= seq![steps[0], steps[1], steps[2]]);
        lemma_evaluate_short(steps[0], steps[1], steps[2], v);
    }
}

/// Converting a value to the unit it is given in leaves it unchanged.
pub proof fn lemma_same_unit_is_identity(v: real, unit: Unit)
    ensures
        formula(unit, unit) == Seq::<Step>::empty(),
        converted(v, unit, unit) == v,
{
    assert(formula(unit, unit) =~= Seq::<Step>::empty());
}

/// A pair of units without a formula converts by leaving the value
/// unchanged.
pub proof fn lemma_no_formula_is_identity(v: real, from: Unit, to: Unit)
    requires
        !has_formula(from, to),
    ensures
        formula(from, to) == Seq::<Step>::empty(),
        converted(v, from, to) == v,
{
    assert(formula(from, to) =~= Seq::<Step>::empty());
}

/// No formula leads from a unit of one quantity to a unit of another: such
/// a conversion leaves the value unchanged.
pub proof fn lemma_unrelated_units_pass_unchanged(v: real, from: Unit, to: Unit)
    requires
        from.quantity() != to.quantity(),
    ensures
        !has_formula(from, to),
        converted(v, from, to) == v,
{
}

/// Over the real numbers, converting a value to another unit and back
/// gives the value again.
pub proof fn lemma_round_trip(v: real, a: Unit, b: Unit)
    ensures
        converted(converted(v, a, b), b, a) == v,
        evaluate(formula(b, a), evaluate(formula(a, b), v)) == v,
{
    lemma_formula_meaning(v, a, b);
    lemma_formula_meaning(converted(v, a, b), b, a);
}

/// Over the real numbers, converting by way of a third unit gives what
/// converting directly gives, where the table has a formula for each of
/// the three pairs.
pub proof fn lemma_conversions_compose(v: real, a: Unit, b: Unit, c: Unit)
    requires
        has_formula(a, b),
        has_formula(b, c),
        has_formula(a, c),
    ensures
        converted(converted(v, a, b), b, c) == converted(v, a, c),
{
}

} // verus!
