//! Messages read from a device, the ways parsing one can fail, and the search
//! for a message in a buffer of bytes read from a serial port.
use vstd::prelude::*;
use vstd::utf8::{decode_utf8, is_leading_byte_width_1, pop_first_scalar, valid_utf8};

verus! {

/// Error returned when parsing a device message fails.
#[derive(Debug, PartialEq, Eq)]
pub enum MessageParseError<'a> {
    /// More bytes are needed to parse a complete message.
    Incomplete,
    /// The message was interrupted by another message.
    Truncated {
        /// Bytes following the truncated message, if any.
        remainder: Option<&'a [u8]>,
    },
    /// The message bytes do not match the expected format.
    Invalid,
    /// The message prefix does not identify a known message type.
    UnknownMessageType,
}

/// The variant of a [`MessageParseError`], without the bytes it may carry.
#[derive(Debug, Clone, Copy, PartialEq, Eq, Structural)]
pub enum ParseErrorKind {
    /// See [`MessageParseError::Incomplete`].
    Incomplete,
    /// See [`MessageParseError::Truncated`].
    Truncated,
    /// See [`MessageParseError::Invalid`].
    Invalid,
    /// See [`MessageParseError::UnknownMessageType`].
    UnknownMessageType,
}

impl<'a> MessageParseError<'a> {
    /// The variant of this error.
    pub open spec fn kind(&self) -> ParseErrorKind {
        match self {
            MessageParseError::Incomplete => ParseErrorKind::Incomplete,
            MessageParseError::Truncated { .. } => ParseErrorKind::Truncated,
            MessageParseError::Invalid => ParseErrorKind::Invalid,
            MessageParseError::UnknownMessageType => ParseErrorKind::UnknownMessageType,
        }
    }

    /// The bytes that follow a truncated message, when this error says so.
    pub open spec fn spec_remainder(&self) -> Option<Seq<u8>> {
        match self {
            MessageParseError::Truncated { remainder: Some(rest) } => Some(rest@),
            _ => None,
        }
    }
}

/// A kind of message that a device sends, with a parser of its own.
pub trait MessageFormat: Sized {
    /// True when `bytes` is a well-formed message of this kind.
    spec fn spec_accepts(bytes: Seq<u8>) -> bool;

    /// True when `message` is what the well-formed message `bytes` says.
    spec fn spec_message(bytes: Seq<u8>, message: Self) -> bool;

    /// The variant of the error that parsing `bytes` gives, when it is not well-formed.
    spec fn spec_error_kind(bytes: Seq<u8>) -> ParseErrorKind;

    /// The bytes that follow the message in `bytes` when the message was cut short by them.
    spec fn spec_remainder(bytes: Seq<u8>) -> Option<Seq<u8>>;

    /// Parses one message of this kind.
    fn parse_message<'a>(bytes: &'a [u8]) -> (r: Result<Self, MessageParseError<'a>>)
        ensures
            r is Ok <==> Self::spec_accepts(bytes@),
            r matches Ok(m) ==> Self::spec_message(bytes@, m),
            r matches Err(e) ==> e.kind() == Self::spec_error_kind(bytes@),
            r matches Err(e) ==> e.spec_remainder() == Self::spec_remainder(bytes@),
            r matches Err(e) ==> (e.spec_remainder() matches Some(rest) ==> rest.len()
                < bytes@.len() && is_suffix(rest, bytes@)),
    ;
}

/// True when `s` is a suffix of `t`: the last `s.len()` bytes of `t`.
pub open spec fn is_suffix(s: Seq<u8>, t: Seq<u8>) -> bool {
    s.len() <= t.len() && s == t.skip(t.len() - s.len())
}

/// The part of `bytes` that a search for a message ends on: parsing goes on
/// after each truncated message with the bytes that follow it.
pub open spec fn message_start<M: MessageFormat>(bytes: Seq<u8>) -> Seq<u8>
    decreases bytes.len(),
{
    if !M::spec_accepts(bytes) && M::spec_remainder(bytes) is Some && M::spec_remainder(
        bytes,
    ).unwrap().len() < bytes.len() && is_suffix(M::spec_remainder(bytes).unwrap(), bytes) {
        message_start::<M>(M::spec_remainder(bytes).unwrap())
    } else {
        bytes
    }
}

/// Finds the first complete message in `message_buf`, skipping every
/// message that another one cut short.
pub fn find_message_in_buf<'a, M: MessageFormat>(message_buf: &'a [u8]) -> (r: Result<
    M,
    MessageParseError<'a>,
>)
    ensures
        r is Ok <==> M::spec_accepts(message_start::<M>(message_buf@)),
        r matches Ok(m) ==> M::spec_message(message_start::<M>(message_buf@), m),
        r matches Err(e) ==> e.kind() == M::spec_error_kind(message_start::<M>(message_buf@)),
        r matches Err(e) ==> e.spec_remainder() is None,
        is_suffix(message_start::<M>(message_buf@), message_buf@),
    decreases message_buf@.len(),
{
    proof {
        lemma_message_start_is_suffix::<M>(message_buf@);
    }
    match M::parse_message(message_buf) {
        Ok(m) => Ok(m),
        Err(MessageParseError::Truncated { remainder: Some(remaining_bytes) }) => {
            find_message_in_buf(remaining_bytes)
        },
        Err(error) => Err(error),
    }
}

/// The search for a message ends on a suffix of the buffer.
pub proof fn lemma_message_start_is_suffix<M: MessageFormat>(bytes: Seq<u8>)
    ensures
        is_suffix(message_start::<M>(bytes), bytes),
    decreases bytes.len(),
{
    if !M::spec_accepts(bytes) && M::spec_remainder(bytes) is Some && M::spec_remainder(
        bytes,
    ).unwrap().len() < bytes.len() && is_suffix(M::spec_remainder(bytes).unwrap(), bytes) {
        let rest = M::spec_remainder(bytes).unwrap();
        lemma_message_start_is_suffix::<M>(rest);
        let start = message_start::<M>(rest);
        assert(start == rest.skip(rest.len() - start.len()));
        assert(rest == bytes.skip(bytes.len() - rest.len()));
        assert(start =~= bytes.skip(bytes.len() - start.len()));
    } else {
        assert(bytes =~= bytes.skip(0));
    }
}

/// A buffer that holds one whole message is searched no further: the search
/// ends on the buffer itself.
pub proof fn lemma_whole_message_found<M: MessageFormat>(bytes: Seq<u8>)
    requires
        M::spec_accepts(bytes),
    ensures
        message_start::<M>(bytes) == bytes,
{
}

/// What came of the reading loop's request for a line from the serial port.
#[derive(Debug, Clone, Copy, PartialEq, Eq, Structural)]
pub enum ReadOutcome {
    /// Bytes up to a line end were added to the buffer.
    Line,
    /// Nothing came before the port's time-out.
    TimedOut,
    /// The port failed.
    Failed,
}

/// What the reading loop does next.
#[derive(Debug, PartialEq, Eq)]
pub enum ReadStep<M> {
    /// Store the message and empty the buffer.
    Cache(M),
    /// Keep the buffer: the message in it is not complete yet.
    KeepBuffer,
    /// Empty the buffer: it holds no message.
    ClearBuffer,
    /// Pause, then read again.
    RetryAfterPause,
    /// Stop reading.
    Stop,
}

/// Decides the reading loop's next step after a request for a line: a
/// time-out is retried, any other failure ends the loop, and a line is
/// searched for a message, which is stored; an incomplete one is waited for,
/// and anything else is dropped.
pub fn next_read_step<'a, M: MessageFormat>(outcome: ReadOutcome, message_buf: &'a [u8]) -> (step:
    ReadStep<M>)
    ensures
        outcome == ReadOutcome::TimedOut ==> step == ReadStep::<M>::RetryAfterPause,
        outcome == ReadOutcome::Failed ==> step == ReadStep::<M>::Stop,
        outcome == ReadOutcome::Line ==> {
            let start = message_start::<M>(message_buf@);
            &&& M::spec_accepts(start) ==> (step matches ReadStep::Cache(m) && M::spec_message(
                start,
                m,
            ))
            &&& !M::spec_accepts(start) && M::spec_error_kind(start) == ParseErrorKind::Incomplete
                ==> step == ReadStep::<M>::KeepBuffer
            &&& !M::spec_accepts(start) && M::spec_error_kind(start) != ParseErrorKind::Incomplete
                ==> step == ReadStep::<M>::ClearBuffer
        },
{
    match outcome {
        ReadOutcome::TimedOut => ReadStep::RetryAfterPause,
        ReadOutcome::Failed => ReadStep::Stop,
        ReadOutcome::Line => match find_message_in_buf::<M>(message_buf) {
            Ok(m) => ReadStep::Cache(m),
            Err(MessageParseError::Incomplete) => ReadStep::KeepBuffer,
            Err(_) => ReadStep::ClearBuffer,
        },
    }
}

/// Bytes that are all ASCII are valid UTF-8.
pub proof fn lemma_ascii_is_valid_utf8(s: Seq<u8>)
    requires
        forall|i: int| 0 <= i < s.len() ==> #[trigger] s[i] < 128,
    ensures
        valid_utf8(s),
    decreases s.len(),
{
    if s.len() > 0 {
        assert(is_leading_byte_width_1(s[0]));
        let rest = pop_first_scalar(s);
        assert(rest =~= s.subrange(1, s.len() as int));
        assert forall|i: int| 0 <= i < rest.len() implies #[trigger] rest[i] < 128 by {
            assert(rest[i] == s[i + 1]);
        }
        lemma_ascii_is_valid_utf8(rest);
    }
}

/// Decodes UTF-8 bytes into a `String`.
///
/// Calls std's `str::from_utf8` and copies the result into a `String`. The
/// contract claims that `from_utf8` accepts exactly the valid UTF-8 encodings
/// (as vstd's `valid_utf8` defines them) and that the characters it yields
/// are their decoding.
#[verifier::external_body]
pub(crate) fn utf8_to_string(bytes: &[u8]) -> (r: Option<String>)
    ensures
        r is Some <==> valid_utf8(bytes@),
        r matches Some(s) ==> s@ == decode_utf8(bytes@),
{
    match std::str::from_utf8(bytes) {
        Ok(s) => Some(s.to_owned()),
        Err(_) => None,
    }
}

} // verus!
