//! The setup message that a device sends when it connects: the models of its
//! radio modules and its firmware version.
use vstd::prelude::*;
use vstd::utf8::{decode_utf8, valid_utf8};

use crate::message::{utf8_to_string, MessageParseError};
use crate::parsers::{parse_unsigned, starts_with, unsigned_value};

verus! {

/// A model of radio module that a setup message can name by a number.
pub trait RadioModel: Sized + Copy {
    /// The model that the device names by `code`, if any.
    spec fn spec_from_code(code: u8) -> Option<Self>;

    /// The model that the device names by `code`, if any.
    fn model_from_code(code: u8) -> (r: Option<Self>)
        ensures
            r == Self::spec_from_code(code),
    ;
}

impl RadioModel for crate::spectrum_analyzer::Model {
    open spec fn spec_from_code(code: u8) -> Option<Self> {
        crate::spectrum_analyzer::model_from_code(code)
    }

    fn model_from_code(code: u8) -> (r: Option<Self>) {
        crate::spectrum_analyzer::Model::from_code(code)
    }
}

impl RadioModel for crate::signal_generator::Model {
    open spec fn spec_from_code(code: u8) -> Option<Self> {
        crate::signal_generator::model_from_code(code)
    }

    fn model_from_code(code: u8) -> (r: Option<Self>) {
        crate::signal_generator::Model::from_code(code)
    }
}

/// What a three-character model field says: `Some(Some(m))` for a model,
/// `Some(None)` for 255 (no module), `None` when the field is not valid.
pub open spec fn model_field<M: RadioModel>(f: Seq<u8>) -> Option<Option<M>> {
    match unsigned_value(f, 255) {
        Some(v) => match M::spec_from_code(v as u8) {
            Some(m) => Some(Some(m)),
            None => if v == 255 {
                Some(None)
            } else {
                None
            },
        },
        None => None,
    }
}

/// True when `s` holds neither `\r` nor `\n`.
pub open spec fn has_no_line_break(s: Seq<u8>) -> bool {
    forall|i: int| 0 <= i < s.len() ==> #[trigger] s[i] != 13u8 && s[i] != 10u8
}

/// The firmware version text of the tail `t` of a setup message: the whole
/// tail when it holds no line break, or all but a final `\r\n`.
pub open spec fn firmware_text(t: Seq<u8>) -> Option<Seq<u8>> {
    if has_no_line_break(t) {
        Some(t)
    } else if t.len() >= 2 && t[t.len() - 2] == 13u8 && t[t.len() - 1] == 10u8
        && has_no_line_break(t.take(t.len() - 2)) {
        Some(t.take(t.len() - 2))
    } else {
        None
    }
}

/// True when `bytes` is a setup message with the given prefix: the prefix,
/// the main and the expansion module's model numbers (3 characters each,
/// separated and followed by commas), and the firmware version up to an
/// optional `\r\n`, in valid UTF-8.
pub open spec fn setup_info_accepts<M: RadioModel>(bytes: Seq<u8>, prefix: Seq<u8>) -> bool {
    let pl = prefix.len() as int;
    &&& bytes.len() >= pl + 8
    &&& bytes.take(pl) == prefix
    &&& bytes[pl + 3] == 44u8
    &&& bytes[pl + 7] == 44u8
    &&& model_field::<M>(bytes.subrange(pl, pl + 3)) is Some
    &&& model_field::<M>(bytes.subrange(pl + 4, pl + 7)) is Some
    &&& firmware_text(bytes.skip(pl + 8)) matches Some(fw) && valid_utf8(fw)
}

/// The main radio module's model, the expansion radio module's model (if
/// any), and the firmware version of an RF Explorer.
#[derive(Debug, Clone, PartialEq, Eq)]
pub struct SetupInfo<M> {
    /// The main radio module's model, if the device names a known one.
    pub main_radio_model: Option<M>,
    /// The expansion radio module's model, if there is one.
    pub expansion_radio_model: Option<M>,
    /// The firmware version.
    pub firmware_version: String,
}

/// A container of an RF Explorer's messages that holds its latest setup message.
pub trait RfExplorerMessageContainer {
    /// The model type of the device's radio modules.
    type Model: RadioModel;

    /// The latest setup message, if one has come.
    spec fn spec_setup_info(&self) -> Option<SetupInfo<Self::Model>>;

    /// The latest setup message, if one has come.
    fn setup_info(&self) -> (r: Option<&SetupInfo<Self::Model>>)
        ensures
            r is Some <==> self.spec_setup_info() is Some,
            r matches Some(info) ==> *info == self.spec_setup_info().unwrap(),
    ;
}

/// True when `info` holds what the setup message `bytes` says.
pub open spec fn setup_info_holds<M: RadioModel>(
    bytes: Seq<u8>,
    prefix: Seq<u8>,
    info: SetupInfo<M>,
) -> bool {
    let pl = prefix.len() as int;
    &&& info.main_radio_model == model_field::<M>(bytes.subrange(pl, pl + 3)).unwrap()
    &&& info.expansion_radio_model == model_field::<M>(bytes.subrange(pl + 4, pl + 7)).unwrap()
    &&& info.firmware_version@ == decode_utf8(firmware_text(bytes.skip(pl + 8)).unwrap())
}

/// Reads a three-character model field.
fn parse_model_field<M: RadioModel>(f: &[u8]) -> (r: Option<Option<M>>)
    ensures
        r == model_field::<M>(f@),
{
    let code = match parse_unsigned(f, 255) {
        Some(code) => code,
        None => return None,
    };
    match M::model_from_code(code as u8) {
        Some(model) => Some(Some(model)),
        None => if code == 255 {
            Some(None)
        } else {
            None
        },
    }
}

/// The index of the first `\r` or `\n` in `t`, if any.
fn first_line_break(t: &[u8]) -> (r: Option<usize>)
    ensures
        r is None ==> has_no_line_break(t@),
        r matches Some(i) ==> i < t@.len() && (t@[i as int] == 13u8 || t@[i as int] == 10u8)
            && has_no_line_break(t@.take(i as int)),
{
    let mut i: usize = 0;
    while i < t.len()
        invariant
            0 <= i <= t@.len(),
            forall|k: int| 0 <= k < i ==> #[trigger] t@[k] != 13u8 && t@[k] != 10u8,
        decreases t@.len() - i,
    {
        if t[i] == 13u8 || t[i] == 10u8 {
            assert(has_no_line_break(t@.take(i as int))) by {
                assert forall|k: int| 0 <= k < i implies #[trigger] t@.take(i as int)[k] != 13u8
                    && t@.take(i as int)[k] != 10u8 by {
                    assert(t@.take(i as int)[k] == t@[k]);
                }
            }
            return Some(i);
        }
        i = i + 1;
    }
    None
}

/// Splits the firmware version off the tail of a setup message.
fn split_firmware(t: &[u8]) -> (r: Option<&[u8]>)
    ensures
        r is Some <==> firmware_text(t@) is Some,
        r matches Some(fw) ==> fw@ == firmware_text(t@).unwrap(),
{
    match first_line_break(t) {
        None => Some(t),
        Some(i) => {
            let n = t.len();
            if t[i] == 13u8 && n - i == 2 && t[i + 1] == 10u8 {
                let fw = &t[0..i];
                assert(fw@ =~= t@.take(i as int));
                Some(fw)
            } else {
                proof {
                    assert(t@[i as int] == 13u8 || t@[i as int] == 10u8);
                    if n >= 2 && t@[n - 2] == 13u8 && t@[n - 1] == 10u8 && has_no_line_break(
                        t@.take(n - 2),
                    ) {
                        if i < n - 2 {
                            assert(t@.take(n - 2)[i as int] == t@[i as int]);
                        } else if i > n - 2 {
                            assert(t@.take(i as int)[n - 2] == t@[n - 2]);
                        }
                    }
                }
                None
            }
        },
    }
}

impl<M: RadioModel> SetupInfo<M> {
    /// Parses a setup message that starts with `prefix`.
    pub fn try_from_with_prefix<'a>(bytes: &'a [u8], prefix: &[u8]) -> (r: Result<
        SetupInfo<M>,
        MessageParseError<'a>,
    >)
        ensures
            r is Ok <==> setup_info_accepts::<M>(bytes@, prefix@),
            r matches Ok(info) ==> setup_info_holds::<M>(bytes@, prefix@, info),
            r is Err ==> r == Err::<SetupInfo<M>, MessageParseError<'a>>(
                MessageParseError::Invalid,
            ),
    {
        let pl = prefix.len();
        let n = bytes.len();
        if !starts_with(bytes, prefix) || n - pl < 8 {
            return Err(MessageParseError::Invalid);
        }
        let main_field = &bytes[pl..pl + 3];
        let main_radio_model = match parse_model_field::<M>(main_field) {
            Some(m) => m,
            None => return Err(MessageParseError::Invalid),
        };
        if bytes[pl + 3] != 44u8 {
            return Err(MessageParseError::Invalid);
        }
        let expansion_field = &bytes[pl + 4..pl + 7];
        let expansion_radio_model = match parse_model_field::<M>(expansion_field) {
            Some(m) => m,
            None => return Err(MessageParseError::Invalid),
        };
        if bytes[pl + 7] != 44u8 {
            return Err(MessageParseError::Invalid);
        }
        let tail = &bytes[pl + 8..n];
        assert(tail@ =~= bytes@.skip(pl + 8));
        let fw = match split_firmware(tail) {
            Some(fw) => fw,
            None => return Err(MessageParseError::Invalid),
        };
        match utf8_to_string(fw) {
            Some(firmware_version) => Ok(
                SetupInfo { main_radio_model, expansion_radio_model, firmware_version },
            ),
            None => Err(MessageParseError::Invalid),
        }
    }
}

} // verus!
