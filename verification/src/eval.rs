//! Evaluation of one expression: the outside evaluator produces a number,
//! which is rendered with a fixed count of fractional digits; the cleanup in
//! [`crate::text`] then yields the display string.

use vstd::prelude::*;
use crate::text::{cleaned_display, trimmed};

verus! {

/// Fractional digits in the fixed-precision rendering of a numeric result.
pub const OUTPUT_PRECISION: usize = 7;

/// What evaluating an expression and rendering its numeric value with
/// `precision` fractional digits yields; `None` when the evaluator reports
/// any failure. The outcome depends on the two arguments alone.
pub uninterp spec fn eval_fixed(s: Seq<char>, precision: usize) -> Option<Seq<char>>;

/// Relies on `meval::eval_str`, which parses and evaluates an arithmetic
/// expression with its builtin context and returns an error for malformed or
/// unknown input, and on fixed-precision formatting of the numeric result;
/// both depend on the arguments alone. On non-empty input made only of
/// whitespace the evaluator's tokenizer panics instead of returning its
/// error, so the precondition keeps such text out — the display rules filter
/// it before evaluation anyway.
#[verifier::external_body]
pub(crate) fn eval_to_fixed(input: &str, precision: usize) -> (r: Option<String>)
    requires
        trimmed(input@).len() > 0,
    ensures
        (match r {
            Some(t) => eval_fixed(input@, precision) == Some(t@),
            None => eval_fixed(input@, precision) is None,
        }),
{
    match meval::eval_str(input) {
        Ok(value) => Some(format!("{:.1$}", value, precision)),
        Err(_) => None,
    }
}

/// The display outcome for `input`: the cleaned fixed-precision rendering of
/// its value, or `None` when evaluation fails.
pub open spec fn spec_response(input: Seq<char>) -> Option<Seq<char>> {
    match eval_fixed(input, OUTPUT_PRECISION) {
        Some(f) => Some(cleaned_display(f)),
        None => None,
    }
}

} // verus!
