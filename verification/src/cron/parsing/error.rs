//! Why parsing an expression fails.
use vstd::prelude::*;
use crate::cron::datepart::CronDatePart;
use crate::cron::value::CronValue;
use crate::cron::text::{decimal_digits, decimal_string};

verus! {

/// The possible failures when parsing a cron expression.
#[derive(Debug, PartialEq)]
pub enum CronParsingError {
    /// The expression does not have five fields.
    FieldCount {
        /// The raw expression being parsed.
        expression: String,
        /// The number of fields found.
        parts: usize,
    },
    /// No handler took the value.
    InvalidValue {
        /// The date part the value was supplied for.
        date_part: CronDatePart,
        /// The value that was not handled.
        value: String,
    },
    /// A parsed number lies outside the bound allowed for it.
    ValueOutOfBounds {
        /// The raw value being parsed.
        raw_value: String,
        /// The bound that was crossed.
        allowed: u32,
        /// The number supplied.
        supplied: u32,
        /// The date part the value was supplied for.
        date_part: CronDatePart,
    },
    /// A value that should be a number is not one.
    ParsedValue {
        /// The text that did not parse.
        value: String,
        /// The date part the value was supplied for.
        date_part: CronDatePart,
    },
    /// A range whose start lies after its end.
    InvertedRange {
        min: u32,
        max: u32,
    },
}

/// A parsing failure, with its texts taken as sequences of characters.
pub enum ParsingFailure {
    FieldCount { expression: Seq<char>, parts: nat },
    InvalidValue { date_part: CronDatePart, value: Seq<char> },
    ValueOutOfBounds { raw_value: Seq<char>, allowed: u32, supplied: u32, date_part: CronDatePart },
    ParsedValue { value: Seq<char>, date_part: CronDatePart },
    InvertedRange { min: u32, max: u32 },
}

impl View for CronParsingError {
    type V = ParsingFailure;

    open spec fn view(&self) -> ParsingFailure {
        match self {
            CronParsingError::FieldCount { expression, parts } => ParsingFailure::FieldCount {
                expression: expression@,
                parts: *parts as nat,
            },
            CronParsingError::InvalidValue { date_part, value } => ParsingFailure::InvalidValue {
                date_part: *date_part,
                value: value@,
            },
            CronParsingError::ValueOutOfBounds { raw_value, allowed, supplied, date_part } =>
                ParsingFailure::ValueOutOfBounds {
                raw_value: raw_value@,
                allowed: *allowed,
                supplied: *supplied,
                date_part: *date_part,
            },
            CronParsingError::ParsedValue { value, date_part } => ParsingFailure::ParsedValue {
                value: value@,
                date_part: *date_part,
            },
            CronParsingError::InvertedRange { min, max } => ParsingFailure::InvertedRange {
                min: *min,
                max: *max,
            },
        }
    }
}

/// A parsed value or its failure, with the failure taken as its view.
pub open spec fn value_result_view(r: Result<CronValue, CronParsingError>) -> Result<
    CronValue,
    ParsingFailure,
> {
    match r {
        Ok(v) => Ok(v),
        Err(e) => Err(e@),
    }
}

/// What a handler answers, with a failure taken as its view.
pub open spec fn handled_view(r: Option<Result<CronValue, CronParsingError>>) -> Option<
    Result<CronValue, ParsingFailure>,
> {
    match r {
        Some(inner) => Some(value_result_view(inner)),
        None => None,
    }
}

impl CronParsingError {
    /// The message that describes the failure.
    pub fn to_string(&self) -> (r: String)
        ensures
            r@ == self.spec_message(),
    {
        match self {
            CronParsingError::FieldCount { expression, parts } => String::from_str("Expression ")
                .concat(expression.as_str()).concat(" had ").concat(
                decimal_string(*parts as u64).as_str(),
            ).concat(" fields."),
            CronParsingError::InvalidValue { date_part, value } => String::from_str("Value ").concat(
                value.as_str(),
            ).concat(" is invalid for ").concat(date_part.to_string().as_str()).concat("."),
            CronParsingError::ValueOutOfBounds { raw_value, allowed, supplied, .. } =>
                String::from_str("Value '").concat(raw_value.as_str()).concat("'=>").concat(
                decimal_string(*supplied as u64).as_str(),
            ).concat(" is outside the bound allowed ").concat(
                decimal_string(*allowed as u64).as_str(),
            ),
            CronParsingError::ParsedValue { value, date_part } => value.clone().concat(
                " could not parse into a value for ",
            ).concat(date_part.to_string().as_str()),
            CronParsingError::InvertedRange { min, max } => String::from_str("Inverted range ")
                .concat(decimal_string(*min as u64).as_str()).concat("-").concat(
                decimal_string(*max as u64).as_str(),
            ).concat(" is not allowed"),
        }
    }

    pub open spec fn spec_message(&self) -> Seq<char> {
        match self {
            CronParsingError::FieldCount { expression, parts } => "Expression "@ + expression@
                + " had "@ + decimal_digits(*parts as nat) + " fields."@,
            CronParsingError::InvalidValue { date_part, value } => "Value "@ + value@
                + " is invalid for "@ + date_part.spec_name() + "."@,
            CronParsingError::ValueOutOfBounds { raw_value, allowed, supplied, .. } => "Value '"@
                + raw_value@ + "'=>"@ + decimal_digits(*supplied as nat)
                + " is outside the bound allowed "@ + decimal_digits(*allowed as nat),
            CronParsingError::ParsedValue { value, date_part } => value@
                + " could not parse into a value for "@ + date_part.spec_name(),
            CronParsingError::InvertedRange { min, max } => "Inverted range "@ + decimal_digits(
                *min as nat,
            ) + "-"@ + decimal_digits(*max as nat) + " is not allowed"@,
        }
    }
}

} // verus!
