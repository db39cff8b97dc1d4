//! The serial number of an RF Explorer.
use vstd::prelude::*;
use vstd::utf8::{decode_utf8, valid_utf8};

use crate::message::{
    lemma_ascii_is_valid_utf8, utf8_to_string, MessageFormat, MessageParseError, ParseErrorKind,
};
use crate::parsers::{split_fields, split_fields_spec};

verus! {

/// True when `b` is an ASCII letter or digit.
pub open spec fn is_ascii_alphanumeric(b: u8) -> bool {
    (48 <= b <= 57) || (65 <= b <= 90) || (97 <= b <= 122)
}

/// The prefix of a serial number message: `#Sn`.
pub open spec fn serial_number_prefix() -> Seq<u8> {
    seq![35u8, 83u8, 110u8]
}

/// The widths of the fields of a serial number message.
pub open spec fn serial_number_widths() -> Seq<usize> {
    seq![16usize]
}

/// The sixteen characters of the serial number that `bytes` holds, when it is
/// `#Sn`, sixteen ASCII letters or digits and a line end.
pub open spec fn serial_number_text(bytes: Seq<u8>) -> Option<Seq<u8>> {
    match split_fields_spec(bytes, serial_number_prefix(), serial_number_widths()) {
        Some(fields) => if forall|i: int|
            0 <= i < fields[0].len() ==> is_ascii_alphanumeric(#[trigger] fields[0][i]) {
            Some(fields[0])
        } else {
            None
        },
        None => None,
    }
}

/// The serial number of an RF Explorer.
#[derive(Debug, Clone, PartialEq, Eq, Default)]
pub struct SerialNumber {
    serial_number: String,
}

impl View for SerialNumber {
    type V = Seq<char>;

    closed spec fn view(&self) -> Seq<char> {
        self.serial_number@
    }
}

impl SerialNumber {
    /// The serial number as text.
    pub fn as_str(&self) -> (s: &str)
        ensures
            s@ == self@,
    {
        self.serial_number.as_str()
    }

    /// The serial number as an owned `String`.
    pub fn to_string(&self) -> (s: String)
        ensures
            s@ == self@,
    {
        self.serial_number.as_str().to_owned()
    }

    /// Parses a serial number message: `#Sn`, sixteen ASCII letters or digits,
    /// and an optional `\r` or `\r\n`.
    #[verifier::loop_isolation(false)]
    pub fn try_from<'a>(bytes: &'a [u8]) -> (r: Result<SerialNumber, MessageParseError<'a>>)
        ensures
            r is Ok <==> serial_number_text(bytes@) is Some,
            r matches Ok(sn) ==> sn@ == decode_utf8(serial_number_text(bytes@).unwrap()),
            r is Err ==> r == Err::<SerialNumber, MessageParseError<'a>>(
                MessageParseError::Invalid,
            ),
    {
        let prefix: [u8; 3] = [35u8, 83u8, 110u8];
        let widths: [usize; 1] = [16usize];
        assert(prefix@ == serial_number_prefix());
        assert(widths@ == serial_number_widths());
        let fields = match split_fields(bytes, &prefix, &widths) {
            Some(fields) => fields,
            None => return Err(MessageParseError::Invalid),
        };
        let text = fields[0];
        assert(text@ == fields@[0]@);
        assert(text@ == split_fields_spec(bytes@, prefix@, widths@).unwrap()[0]);
        let mut i: usize = 0;
        while i < text.len()
            invariant
                0 <= i <= text@.len(),
                forall|k: int| 0 <= k < i ==> is_ascii_alphanumeric(#[trigger] text@[k]),
            decreases text@.len() - i,
        {
            let b = text[i];
            if !((48 <= b && b <= 57) || (65 <= b && b <= 90) || (97 <= b && b <= 122)) {
                assert(!is_ascii_alphanumeric(
                    split_fields_spec(bytes@, prefix@, widths@).unwrap()[0][i as int],
                ));
                return Err(MessageParseError::Invalid);
            }
            i = i + 1;
        }
        proof {
            assert forall|k: int| 0 <= k < text@.len() implies #[trigger] text@[k] < 128 by {
                assert(is_ascii_alphanumeric(text@[k]));
            }
            lemma_ascii_is_valid_utf8(text@);
        }
        match utf8_to_string(text) {
            Some(serial_number) => Ok(SerialNumber { serial_number }),
            None => Err(MessageParseError::Invalid),
        }
    }
}

impl AsRef<str> for SerialNumber {
    fn as_ref(&self) -> (s: &str)
        ensures
            s@ == self@,
    {
        self.serial_number.as_str()
    }
}

impl MessageFormat for SerialNumber {
    open spec fn spec_accepts(bytes: Seq<u8>) -> bool {
        serial_number_text(bytes) is Some
    }

    open spec fn spec_message(bytes: Seq<u8>, message: SerialNumber) -> bool {
        message@ == decode_utf8(serial_number_text(bytes).unwrap())
    }

    open spec fn spec_error_kind(bytes: Seq<u8>) -> ParseErrorKind {
        ParseErrorKind::Invalid
    }

    open spec fn spec_remainder(bytes: Seq<u8>) -> Option<Seq<u8>> {
        None
    }

    fn parse_message<'a>(bytes: &'a [u8]) -> (r: Result<SerialNumber, MessageParseError<'a>>) {
        SerialNumber::try_from(bytes)
    }
}

} // verus!
