//! The temperature range that the signal generator reports.
use core::ops::RangeInclusive;
use vstd::prelude::*;

use crate::message::{MessageFormat, MessageParseError, ParseErrorKind};
use crate::parsers::{split_fields, split_fields_spec};

verus! {

/// Temperature range reported by the signal generator.
#[derive(Debug, Clone, Copy, PartialEq, Eq, Structural)]
pub enum Temperature {
    /// Temperature is between -10 C and 0 C.
    MinusTenToZero,
    /// Temperature is between 0 C and 10 C.
    ZeroToTen,
    /// Temperature is between 10 C and 20 C.
    TenToTwenty,
    /// Temperature is between 20 C and 30 C.
    TwentyToThirty,
    /// Temperature is between 30 C and 40 C.
    ThirtyToForty,
    /// Temperature is between 40 C and 50 C.
    FortyToFifty,
    /// Temperature is between 50 C and 60 C.
    FiftyToSixty,
}

/// The prefix of a temperature message: `#T:`.
pub open spec fn temperature_prefix() -> Seq<u8> {
    seq![35u8, 84u8, 58u8]
}

/// The temperature whose code is the ASCII character `code` (`'0'` to `'6'`).
pub open spec fn temperature_from_code(code: u8) -> Option<Temperature> {
    if code == 48 {
        Some(Temperature::MinusTenToZero)
    } else if code == 49 {
        Some(Temperature::ZeroToTen)
    } else if code == 50 {
        Some(Temperature::TenToTwenty)
    } else if code == 51 {
        Some(Temperature::TwentyToThirty)
    } else if code == 52 {
        Some(Temperature::ThirtyToForty)
    } else if code == 53 {
        Some(Temperature::FortyToFifty)
    } else if code == 54 {
        Some(Temperature::FiftyToSixty)
    } else {
        None
    }
}

/// The lowest and highest temperature, in degrees Celsius, of a range.
pub open spec fn temperature_bounds(t: Temperature) -> (i8, i8) {
    match t {
        Temperature::MinusTenToZero => (-10i8, 0i8),
        Temperature::ZeroToTen => (0i8, 10i8),
        Temperature::TenToTwenty => (10i8, 20i8),
        Temperature::TwentyToThirty => (20i8, 30i8),
        Temperature::ThirtyToForty => (30i8, 40i8),
        Temperature::FortyToFifty => (40i8, 50i8),
        Temperature::FiftyToSixty => (50i8, 60i8),
    }
}

/// The temperature that `bytes` holds, when it is `#T:`, one of the
/// characters `0` to `6`, and a line end.
pub open spec fn spec_temperature(bytes: Seq<u8>) -> Option<Temperature> {
    match split_fields_spec(bytes, temperature_prefix(), seq![1usize]) {
        Some(fields) => temperature_from_code(fields[0][0]),
        None => None,
    }
}

impl Temperature {
    /// The temperature whose code is `code`.
    pub fn from_code(code: u8) -> (r: Option<Temperature>)
        ensures
            r == temperature_from_code(code),
    {
        match code {
            48 => Some(Temperature::MinusTenToZero),
            49 => Some(Temperature::ZeroToTen),
            50 => Some(Temperature::TenToTwenty),
            51 => Some(Temperature::TwentyToThirty),
            52 => Some(Temperature::ThirtyToForty),
            53 => Some(Temperature::FortyToFifty),
            54 => Some(Temperature::FiftyToSixty),
            _ => None,
        }
    }

    /// Returns the inclusive temperature range in degrees Celsius.
    pub fn range(&self) -> (r: RangeInclusive<i8>)
        ensures
            r@.start == temperature_bounds(*self).0,
            r@.end == temperature_bounds(*self).1,
            !r@.exhausted,
    {
        let (low, high): (i8, i8) = match self {
            Temperature::MinusTenToZero => (-10, 0),
            Temperature::ZeroToTen => (0, 10),
            Temperature::TenToTwenty => (10, 20),
            Temperature::TwentyToThirty => (20, 30),
            Temperature::ThirtyToForty => (30, 40),
            Temperature::FortyToFifty => (40, 50),
            Temperature::FiftyToSixty => (50, 60),
        };
        RangeInclusive::new(low, high)
    }

    /// Parses a temperature message.
    pub fn try_from<'a>(bytes: &'a [u8]) -> (r: Result<Temperature, MessageParseError<'a>>)
        ensures
            r is Ok <==> spec_temperature(bytes@) is Some,
            r matches Ok(t) ==> spec_temperature(bytes@) == Some(t),
            r is Err ==> r == Err::<Temperature, MessageParseError<'a>>(MessageParseError::Invalid),
    {
        let prefix: [u8; 3] = [35u8, 84u8, 58u8];
        let widths: [usize; 1] = [1usize];
        assert(prefix@ == temperature_prefix());
        assert(widths@ == seq![1usize]);
        let fields = match split_fields(bytes, &prefix, &widths) {
            Some(fields) => fields,
            None => return Err(MessageParseError::Invalid),
        };
        let field = fields[0];
        assert(field@ == fields@[0]@);
        match Temperature::from_code(field[0]) {
            Some(t) => Ok(t),
            None => Err(MessageParseError::Invalid),
        }
    }
}

impl MessageFormat for Temperature {
    open spec fn spec_accepts(bytes: Seq<u8>) -> bool {
        spec_temperature(bytes) is Some
    }

    open spec fn spec_message(bytes: Seq<u8>, message: Temperature) -> bool {
        spec_temperature(bytes) == Some(message)
    }

    open spec fn spec_error_kind(bytes: Seq<u8>) -> ParseErrorKind {
        ParseErrorKind::Invalid
    }

    open spec fn spec_remainder(bytes: Seq<u8>) -> Option<Seq<u8>> {
        None
    }

    fn parse_message<'a>(bytes: &'a [u8]) -> (r: Result<Temperature, MessageParseError<'a>>) {
        Temperature::try_from(bytes)
    }
}

/// Every temperature range holds at least its two bounds, ten degrees apart,
/// and the ranges follow one another without gaps.
pub proof fn lemma_temperature_ranges(t: Temperature)
    ensures
        temperature_bounds(t).1 == temperature_bounds(t).0 + 10,
        -10 <= temperature_bounds(t).0 <= 50,
{
}

/// The temperature code `k` (the character `0` to `6`) names the range from
/// `10 * k - 10` to `10 * k` degrees Celsius; no other byte names a range.
pub proof fn lemma_temperature_numbering(code: u8)
    ensures
        48 <= code <= 54 ==> (temperature_from_code(code) matches Some(t) && temperature_bounds(
            t,
        ).0 == 10 * (code - 48) - 10 && temperature_bounds(t).1 == 10 * (code - 48)),
        !(48 <= code <= 54) ==> temperature_from_code(code) is None,
{
}

} // verus!
