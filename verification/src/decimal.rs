//! Arbitrary-precision decimals, parsed by the `bigdecimal` crate.
//!
//! Nothing here is proved: the items of this module state what the rest of
//! the crate takes on trust about `bigdecimal`.

use bigdecimal::BigDecimal;
use bigdecimal::ParseBigDecimalError;
use std::str::FromStr;
use vstd::prelude::*;

verus! {

/// `bigdecimal::BigDecimal`, an opaque value to the verifier.
#[verifier::external_type_specification]
#[verifier::external_body]
pub struct ExBigDecimal(BigDecimal);

/// `bigdecimal::ParseBigDecimalError`, an opaque value to the verifier.
#[verifier::external_type_specification]
#[verifier::external_body]
pub struct ExParseBigDecimalError(ParseBigDecimalError);

/// What `BigDecimal::from_str` returns for a text. The parser reads nothing
/// but its argument, so the same text always gives the same outcome.
pub uninterp spec fn parsed_decimal(text: Seq<char>) -> Result<BigDecimal, ParseBigDecimalError>;

/// Calls `<BigDecimal as FromStr>::from_str`. The contract claims that the
/// call returns for every text, and that the outcome is the one that
/// [`parsed_decimal`] names for this text; it says nothing of which texts
/// are numbers.
#[verifier::external_body]
pub(crate) fn parse_decimal(text: &str) -> (r: Result<BigDecimal, ParseBigDecimalError>)
    ensures
        r == parsed_decimal(text@),
{
    BigDecimal::from_str(text)
}

} // verus!
