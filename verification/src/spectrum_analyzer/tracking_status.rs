//! Whether the spectrum analyzer is tracking a signal generator.
use vstd::prelude::*;

use crate::message::{MessageFormat, MessageParseError, ParseErrorKind};
use crate::parsers::{split_fields, split_fields_spec};

verus! {

/// Whether the spectrum analyzer is tracking a signal generator.
#[derive(Debug, Clone, Copy, PartialEq, Eq, Structural, Default)]
pub enum TrackingStatus {
    /// Tracking is off.
    #[default]
    Disabled,
    /// Tracking is on.
    Enabled,
}

/// The prefix of a tracking status message: `#K`.
pub open spec fn tracking_status_prefix() -> Seq<u8> {
    seq![35u8, 75u8]
}

/// The tracking status that `bytes` holds, when it is `#K`, the raw byte 0
/// or 1, and a line end.
pub open spec fn spec_tracking_status(bytes: Seq<u8>) -> Option<TrackingStatus> {
    match split_fields_spec(bytes, tracking_status_prefix(), seq![1usize]) {
        Some(fields) => if fields[0][0] == 0u8 {
            Some(TrackingStatus::Disabled)
        } else if fields[0][0] == 1u8 {
            Some(TrackingStatus::Enabled)
        } else {
            None
        },
        None => None,
    }
}

impl TrackingStatus {
    /// The tracking status with the number `code`.
    pub fn from_code(code: u8) -> (r: Option<TrackingStatus>)
        ensures
            r == (if code == 0 {
                Some(TrackingStatus::Disabled)
            } else if code == 1 {
                Some(TrackingStatus::Enabled)
            } else {
                None::<TrackingStatus>
            }),
    {
        if code == 0 {
            Some(TrackingStatus::Disabled)
        } else if code == 1 {
            Some(TrackingStatus::Enabled)
        } else {
            None
        }
    }

    /// Parses a tracking status message.
    pub fn try_from<'a>(bytes: &'a [u8]) -> (r: Result<TrackingStatus, MessageParseError<'a>>)
        ensures
            r is Ok <==> spec_tracking_status(bytes@) is Some,
            r matches Ok(t) ==> spec_tracking_status(bytes@) == Some(t),
            r is Err ==> r == Err::<TrackingStatus, MessageParseError<'a>>(
                MessageParseError::Invalid,
            ),
    {
        let prefix: [u8; 2] = [35u8, 75u8];
        let widths: [usize; 1] = [1usize];
        assert(prefix@ == tracking_status_prefix());
        assert(widths@ == seq![1usize]);
        let fields = match split_fields(bytes, &prefix, &widths) {
            Some(fields) => fields,
            None => return Err(MessageParseError::Invalid),
        };
        let field = fields[0];
        assert(field@ == fields@[0]@);
        match TrackingStatus::from_code(field[0]) {
            Some(t) => Ok(t),
            None => Err(MessageParseError::Invalid),
        }
    }
}

impl MessageFormat for TrackingStatus {
    open spec fn spec_accepts(bytes: Seq<u8>) -> bool {
        spec_tracking_status(bytes) is Some
    }

    open spec fn spec_message(bytes: Seq<u8>, message: TrackingStatus) -> bool {
        spec_tracking_status(bytes) == Some(message)
    }

    open spec fn spec_error_kind(bytes: Seq<u8>) -> ParseErrorKind {
        ParseErrorKind::Invalid
    }

    open spec fn spec_remainder(bytes: Seq<u8>) -> Option<Seq<u8>> {
        None
    }

    fn parse_message<'a>(bytes: &'a [u8]) -> (r: Result<TrackingStatus, MessageParseError<'a>>) {
        TrackingStatus::try_from(bytes)
    }
}

} // verus!
