//! Unit conversion: a closed set of units, the table of conversion formulas
//! between them, and a parser for one-line conversion requests such as
//! `10kg -> g`.

pub mod conversion;
pub mod expression;
pub mod lowercase;
pub mod menu;
pub mod text;
pub mod unit;
