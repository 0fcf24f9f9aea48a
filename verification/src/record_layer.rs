//! TLS Records are the top layer abstraction that are serialized first before
//! being sent into the TCP stream

use crate::constants::{ContentType, ProtocolVersion};
use crate::fsm::FiniteStateMachine;
use vstd::pervasive::unreached;
use vstd::prelude::*;
use vstd::slice::{slice_subrange, slice_to_vec};
use vstd::std_specs::convert::FromSpecImpl;

verus! {

/// The longest fragment that a plaintext record may declare: 2^14 bytes.
pub const TLS_PLAINTEXT_MAX_LENGTH: u16 = 16384;

/// The number that two bytes stand for, most significant byte first.
pub open spec fn be16(high: u8, low: u8) -> nat {
    (high * 256 + low) as nat
}

/// TLS Plaintext is sent for negotiating cryptographic parameters, including
/// ClientHello, HelloRetryRequest, and ServerHello
pub struct TLSPlaintext<Payload> {
    pub content_type: ContentType,
    pub legacy_record_version: ProtocolVersion,
    /// The length that the header declares. Nothing ties it to the fragment
    /// until a record is parsed.
    pub length: u16,
    /// What the fragment holds depends on the content type, so the record
    /// leaves its type open.
    pub fragment: Payload,
}

/// A record whose payload is already encrypted. The codec carries the
/// payload through without looking at it.
pub struct TLSCiphertext<Payload> {
    /// Always set to ContentType::ApplicationData
    pub opaque_type: ContentType,
    /// Always set to ProtocolVersion::TLSv1_2
    pub legacy_record_version: ProtocolVersion,
    pub length: u16,
    pub encrypted_record: Payload,
}

/// Record is the top layer abstraction that is serialized into the TCP stream
pub enum Record<T> {
    TLSPlaintext(TLSPlaintext<T>),
    TLSCiphertext(TLSCiphertext<T>),
}

/// The two header bytes of a declared length, most significant byte first.
pub open spec fn length_wire(length: u16) -> Seq<u8> {
    seq![(length / 256) as u8, (length % 256) as u8]
}

/// A record on the wire: the content type byte, the two version bytes, the
/// two bytes of the declared length, then the payload. The declared length
/// is written as it is given, whatever the payload's own length is.
pub open spec fn record_wire(
    content_type: ContentType,
    version: ProtocolVersion,
    length: u16,
    payload: Seq<u8>,
) -> Seq<u8> {
    seq![content_type.wire()] + version.wire() + length_wire(length) + payload
}

/// Serialise a record from its header fields and the bytes of its payload.
/// The declared length is not held against the payload.
pub fn encode_record(
    content_type: ContentType,
    version: ProtocolVersion,
    length: u16,
    payload: &[u8],
) -> (bytes: Vec<u8>)
    ensures
        bytes@ == record_wire(content_type, version, length, payload@),
{
    let mut buf: Vec<u8> = Vec::new();
    let record_version: [u8; 2] = version.encode();
    let length_encoding: [u8; 2] = [(length / 256) as u8, (length % 256) as u8];
    buf.push(content_type.encode());
    buf.extend_from_slice(&record_version);
    buf.extend_from_slice(&length_encoding);
    buf.extend_from_slice(payload);
    assert(buf@ =~= record_wire(content_type, version, length, payload@));
    buf
}

/// Whether `bytes` is the record with these header fields whose payload is
/// what `fragment` converts into. The conversion is the payload type's
/// own, so the payload is any vector that the conversion may return.
pub open spec fn is_wire_of<T: Into<Vec<u8>>>(
    content_type: ContentType,
    version: ProtocolVersion,
    length: u16,
    fragment: T,
    bytes: Seq<u8>,
) -> bool {
    exists|payload: Vec<u8>|
        {
            &&& #[trigger] call_ensures(<T as Into<Vec<u8>>>::into, (fragment,), payload)
            &&& bytes == record_wire(content_type, version, length, payload@)
        }
}

impl<T: Into<Vec<u8>>> TLSPlaintext<T> {
    /// Whether `bytes` is this record on the wire.
    pub open spec fn encodes_to(self, bytes: Seq<u8>) -> bool {
        is_wire_of(self.content_type, self.legacy_record_version, self.length, self.fragment, bytes)
    }
}

impl<T: Into<Vec<u8>>> TLSCiphertext<T> {
    /// Whether `bytes` is this record on the wire.
    pub open spec fn encodes_to(self, bytes: Seq<u8>) -> bool {
        is_wire_of(
            self.opaque_type,
            self.legacy_record_version,
            self.length,
            self.encrypted_record,
            bytes,
        )
    }
}

impl<T: Into<Vec<u8>>> Record<T> {
    /// Whether `bytes` is this record on the wire, whichever kind it is.
    pub open spec fn encodes_to(self, bytes: Seq<u8>) -> bool {
        match self {
            Record::TLSPlaintext(pt) => pt.encodes_to(bytes),
            Record::TLSCiphertext(ct) => ct.encodes_to(bytes),
        }
    }
}

/// Converting a value into its own type returns the value: std's
/// `From<T> for T`, which its documentation calls reflexive. A payload that
/// already is a vector of bytes is therefore written as it stands.
pub assume_specification<V>[ <V as std::convert::From<V>>::from ](v: V) -> (same: V)
    ensures
        same == v,
;

impl<T: Into<Vec<u8>>> From<TLSPlaintext<T>> for Vec<u8> {
    /// The header fields as they stand in the record, followed by the bytes
    /// that the fragment converts into.
    fn from(value: TLSPlaintext<T>) -> (bytes: Vec<u8>)
        ensures
            value.encodes_to(bytes@),
    {
        let fragment: Vec<u8> = value.fragment.into();
        encode_record(
            value.content_type,
            value.legacy_record_version,
            value.length,
            fragment.as_slice(),
        )
    }
}

impl<T: Into<Vec<u8>>> FromSpecImpl<TLSPlaintext<T>> for Vec<u8> {
    /// A vector has no constructor in specifications, so the conversion is
    /// stated over the result's view, in the `ensures` of `from`, and makes
    /// no promise here.
    open spec fn obeys_from_spec() -> bool {
        false
    }

    open spec fn from_spec(value: TLSPlaintext<T>) -> Vec<u8> {
        arbitrary()
    }
}

impl<T: Into<Vec<u8>>> From<TLSCiphertext<T>> for Vec<u8> {
    /// The header fields as they stand in the record, followed by the bytes
    /// that the encrypted payload converts into. No bound is put on the
    /// declared length.
    fn from(value: TLSCiphertext<T>) -> (bytes: Vec<u8>)
        ensures
            value.encodes_to(bytes@),
    {
        let encrypted_record: Vec<u8> = value.encrypted_record.into();
        encode_record(
            value.opaque_type,
            value.legacy_record_version,
            value.length,
            encrypted_record.as_slice(),
        )
    }
}

impl<T: Into<Vec<u8>>> FromSpecImpl<TLSCiphertext<T>> for Vec<u8> {
    /// Stated in the `ensures` of `from`, as for the plaintext record.
    open spec fn obeys_from_spec() -> bool {
        false
    }

    open spec fn from_spec(value: TLSCiphertext<T>) -> Vec<u8> {
        arbitrary()
    }
}

/// Where the payload types can be converted into byte arrays, the record
/// itself can also be converted into byte arrays
impl<T: Into<Vec<u8>>> From<Record<T>> for Vec<u8> {
    fn from(value: Record<T>) -> (bytes: Vec<u8>)
        ensures
            value.encodes_to(bytes@),
    {
        match value {
            Record::TLSPlaintext(pt) => pt.into(),
            Record::TLSCiphertext(ct) => ct.into(),
        }
    }
}

impl<T: Into<Vec<u8>>> FromSpecImpl<Record<T>> for Vec<u8> {
    /// Stated in the `ensures` of `from`, as for the plaintext record.
    open spec fn obeys_from_spec() -> bool {
        false
    }

    open spec fn from_spec(value: Record<T>) -> Vec<u8> {
        arbitrary()
    }
}

/// The parser of one plaintext record. Each state holds the fields that
/// have been established so far and the window of bytes not yet consumed,
/// which is borrowed from the caller's buffer.
pub enum TLSPlaintextParser<'a> {
    ExpectContentType { remainder: &'a [u8] },
    ExpectProtocolVersion { content_type: ContentType, remainder: &'a [u8] },
    ExpectLength { content_type: ContentType, protocol_version: ProtocolVersion, remainder: &'a [u8] },
    ExpectContent {
        content_type: ContentType,
        protocol_version: ProtocolVersion,
        length: u16,
        remainder: &'a [u8],
    },
    Finished { tls_plaintext: TLSPlaintext<Vec<u8>> },
    Failed,
}

/// A parser state as a mathematical value: the same six states over byte
/// sequences.
pub ghost enum ParserState {
    ExpectContentType { remainder: Seq<u8> },
    ExpectProtocolVersion { content_type: ContentType, remainder: Seq<u8> },
    ExpectLength { content_type: ContentType, protocol_version: ProtocolVersion, remainder: Seq<u8> },
    ExpectContent {
        content_type: ContentType,
        protocol_version: ProtocolVersion,
        length: nat,
        remainder: Seq<u8>,
    },
    Finished {
        content_type: ContentType,
        protocol_version: ProtocolVersion,
        length: nat,
        fragment: Seq<u8>,
    },
    Failed,
}

/// The state after the content type step: the first byte must be there and
/// be in the table; the window then starts behind it.
pub open spec fn after_content_type(remainder: Seq<u8>) -> ParserState {
    if remainder.len() < 1 {
        ParserState::Failed
    } else {
        match ContentType::from_wire(remainder[0]) {
            Some(content_type) => ParserState::ExpectProtocolVersion {
                content_type,
                remainder: remainder.skip(1),
            },
            None => ParserState::Failed,
        }
    }
}

/// The state after the protocol version step: the two leading bytes must be
/// there and be in the table; the window then starts behind them.
pub open spec fn after_protocol_version(
    content_type: ContentType,
    remainder: Seq<u8>,
) -> ParserState {
    match ProtocolVersion::decode_spec(remainder) {
        Ok(protocol_version) => ParserState::ExpectLength {
            content_type,
            protocol_version,
            remainder: remainder.skip(2),
        },
        Err(_) => ParserState::Failed,
    }
}

/// The state after the length step: the two leading bytes must be there and
/// stand for a number of at most 2^14; the window then starts behind them.
pub open spec fn after_length(
    content_type: ContentType,
    protocol_version: ProtocolVersion,
    remainder: Seq<u8>,
) -> ParserState {
    if remainder.len() < 2 {
        ParserState::Failed
    } else if be16(remainder[0], remainder[1]) > TLS_PLAINTEXT_MAX_LENGTH {
        ParserState::Failed
    } else {
        ParserState::ExpectContent {
            content_type,
            protocol_version,
            length: be16(remainder[0], remainder[1]),
            remainder: remainder.skip(2),
        }
    }
}

/// The state after the content step: the window must hold exactly as many
/// bytes as were declared, neither fewer nor more, and all of it is the
/// fragment.
pub open spec fn after_content(
    content_type: ContentType,
    protocol_version: ProtocolVersion,
    length: nat,
    remainder: Seq<u8>,
) -> ParserState {
    if remainder.len() != length {
        ParserState::Failed
    } else {
        ParserState::Finished { content_type, protocol_version, length, fragment: remainder }
    }
}

impl ParserState {
    /// The two terminal states.
    pub open spec fn halted(self) -> bool {
        self is Finished || self is Failed
    }

    /// The state that one transition leads to. The terminal states lead to
    /// themselves.
    pub open spec fn step(self) -> ParserState {
        match self {
            ParserState::ExpectContentType { remainder } => after_content_type(remainder),
            ParserState::ExpectProtocolVersion { content_type, remainder } => after_protocol_version(
                content_type,
                remainder,
            ),
            ParserState::ExpectLength {
                content_type,
                protocol_version,
                remainder,
            } => after_length(content_type, protocol_version, remainder),
            ParserState::ExpectContent {
                content_type,
                protocol_version,
                length,
                remainder,
            } => after_content(content_type, protocol_version, length, remainder),
            ParserState::Finished { .. } => self,
            ParserState::Failed => self,
        }
    }

    /// The state in which the parser of a buffer starts.
    pub open spec fn start(bytes: Seq<u8>) -> ParserState {
        ParserState::ExpectContentType { remainder: bytes }
    }

    /// How many transitions a state is away from a terminal state at most.
    pub open spec fn steps_left(self) -> nat {
        match self {
            ParserState::ExpectContentType { .. } => 4,
            ParserState::ExpectProtocolVersion { .. } => 3,
            ParserState::ExpectLength { .. } => 2,
            ParserState::ExpectContent { .. } => 1,
            ParserState::Finished { .. } => 0,
            ParserState::Failed => 0,
        }
    }

    /// The terminal state that repeated transitions end in.
    pub open spec fn run(self) -> ParserState
        decreases self.steps_left(),
    {
        if self.halted() {
            self
        } else {
            self.step().run()
        }
    }
}

/// Whether a buffer holds exactly one plaintext record: a header of five
/// bytes with a content type and a version from the tables and a length of
/// at most 2^14, followed by exactly as many bytes as that length says.
pub open spec fn is_one_record(bytes: Seq<u8>) -> bool {
    &&& bytes.len() >= 5
    &&& ContentType::from_wire(bytes[0]) is Some
    &&& ProtocolVersion::from_wire(bytes[1], bytes[2]) is Some
    &&& be16(bytes[3], bytes[4]) <= TLS_PLAINTEXT_MAX_LENGTH
    &&& bytes.len() == 5 + be16(bytes[3], bytes[4])
}

/// The terminal state that a buffer is owed: the record that it holds, or
/// failure where it does not hold exactly one.
pub open spec fn outcome(bytes: Seq<u8>) -> ParserState {
    if is_one_record(bytes) {
        ParserState::Finished {
            content_type: ContentType::from_wire(bytes[0])->Some_0,
            protocol_version: ProtocolVersion::from_wire(bytes[1], bytes[2])->Some_0,
            length: be16(bytes[3], bytes[4]),
            fragment: bytes.skip(5),
        }
    } else {
        ParserState::Failed
    }
}

/// A terminal state leads to itself, whatever it holds.
pub proof fn lemma_halted_is_fixed(state: ParserState)
    requires
        state.halted(),
    ensures
        state.step() == state,
        state.run() == state,
{
}

/// Every state is at most four transitions away from a terminal state, and
/// each transition of a state that has not halted brings it nearer.
pub proof fn lemma_step_progress(state: ParserState)
    ensures
        state.run().halted(),
        !state.halted() ==> state.step().steps_left() < state.steps_left(),
        state.step().run() == state.run(),
    decreases state.steps_left(),
{
    if !state.halted() {
        lemma_step_progress(state.step());
    }
}

/// Driving the parser from its start state to a halt decides whether the
/// buffer holds exactly one record, and finishes with that record's fields
/// and fragment.
pub proof fn lemma_run_decides_framing(bytes: Seq<u8>)
    ensures
        ParserState::start(bytes).run() == outcome(bytes),
{
    let s0 = ParserState::start(bytes);
    let s1 = s0.step();
    let s2 = s1.step();
    let s3 = s2.step();
    let s4 = s3.step();
    reveal_with_fuel(ParserState::run, 6);
    if bytes.len() >= 1 {
        assert(bytes.skip(1).len() == bytes.len() - 1);
        if bytes.len() >= 3 {
            assert(bytes.skip(1)[0] == bytes[1]);
            assert(bytes.skip(1)[1] == bytes[2]);
            assert(bytes.skip(1).skip(2) =~= bytes.skip(3));
            if bytes.len() >= 5 {
                assert(bytes.skip(3)[0] == bytes[3]);
                assert(bytes.skip(3)[1] == bytes[4]);
                assert(bytes.skip(3).skip(2) =~= bytes.skip(5));
            }
        }
    }
}

/// Parsing inverts serialising: the bytes of a record whose declared
/// length is its payload's length, and is at most 2^14, parse to a finished
/// state that holds the record's header fields and payload again.
pub proof fn lemma_parse_of_record_wire(
    content_type: ContentType,
    version: ProtocolVersion,
    length: u16,
    payload: Seq<u8>,
)
    requires
        length == payload.len(),
        length <= TLS_PLAINTEXT_MAX_LENGTH,
    ensures
        ParserState::start(record_wire(content_type, version, length, payload)).run() == (
        ParserState::Finished {
            content_type,
            protocol_version: version,
            length: length as nat,
            fragment: payload,
        }),
{
    let bytes = record_wire(content_type, version, length, payload);
    lemma_run_decides_framing(bytes);
    assert(bytes.len() == 5 + payload.len());
    assert(bytes[0] == content_type.wire());
    assert(bytes[1] == 0x03u8);
    assert(bytes[2] == version.minor());
    assert(bytes[3] == (length / 256) as u8);
    assert(bytes[4] == (length % 256) as u8);
    assert(be16(bytes[3], bytes[4]) == length);
    assert(bytes.skip(5) =~= payload);
}

/// A payload that is a vector of bytes is written as it stands: whatever
/// a record over such a payload serialises to is its header followed by
/// the payload's bytes.
pub proof fn lemma_vec_payload_wire(
    content_type: ContentType,
    version: ProtocolVersion,
    length: u16,
    payload: Vec<u8>,
    bytes: Seq<u8>,
)
    requires
        is_wire_of(content_type, version, length, payload, bytes),
    ensures
        bytes == record_wire(content_type, version, length, payload@),
{
}

/// For every plaintext record over a vector of bytes whose declared length
/// is the fragment's length, and is at most 2^14: parsing what the record
/// serialises to finishes with the record's header fields and fragment.
pub proof fn lemma_round_trip(record: TLSPlaintext<Vec<u8>>, bytes: Seq<u8>)
    requires
        record.length == record.fragment@.len(),
        record.length <= TLS_PLAINTEXT_MAX_LENGTH,
        record.encodes_to(bytes),
    ensures
        ParserState::start(bytes).run() == (ParserState::Finished {
            content_type: record.content_type,
            protocol_version: record.legacy_record_version,
            length: record.length as nat,
            fragment: record.fragment@,
        }),
{
    lemma_vec_payload_wire(
        record.content_type,
        record.legacy_record_version,
        record.length,
        record.fragment,
        bytes,
    );
    lemma_parse_of_record_wire(
        record.content_type,
        record.legacy_record_version,
        record.length,
        record.fragment@,
    );
}

impl<'a> View for TLSPlaintextParser<'a> {
    type V = ParserState;

    open spec fn view(&self) -> ParserState {
        match *self {
            TLSPlaintextParser::ExpectContentType { remainder } => ParserState::ExpectContentType {
                remainder: remainder@,
            },
            TLSPlaintextParser::ExpectProtocolVersion {
                content_type,
                remainder,
            } => ParserState::ExpectProtocolVersion { content_type, remainder: remainder@ },
            TLSPlaintextParser::ExpectLength {
                content_type,
                protocol_version,
                remainder,
            } => ParserState::ExpectLength { content_type, protocol_version, remainder: remainder@ },
            TLSPlaintextParser::ExpectContent {
                content_type,
                protocol_version,
                length,
                remainder,
            } => ParserState::ExpectContent {
                content_type,
                protocol_version,
                length: length as nat,
                remainder: remainder@,
            },
            TLSPlaintextParser::Finished { tls_plaintext } => ParserState::Finished {
                content_type: tls_plaintext.content_type,
                protocol_version: tls_plaintext.legacy_record_version,
                length: tls_plaintext.length as nat,
                fragment: tls_plaintext.fragment@,
            },
            TLSPlaintextParser::Failed => ParserState::Failed,
        }
    }
}

impl<'a> TLSPlaintextParser<'a> {
    /// The finite state machine always start with "ExpectContentType"
    pub fn start(remainder: &'a [u8]) -> (parser: Self)
        ensures
            parser == (TLSPlaintextParser::ExpectContentType { remainder }),
    {
        Self::ExpectContentType { remainder }
    }

    pub fn is_failed(&self) -> (failed: bool)
        ensures
            failed == (self@ is Failed),
    {
        match self {
            Self::Failed => true,
            _ => false,
        }
    }

    pub fn is_finished(&self) -> (finished: bool)
        ensures
            finished == (self@ is Finished),
    {
        match self {
            Self::Finished { tls_plaintext: _ } => true,
            _ => false,
        }
    }

    /// Attempt to extract the content_type encoding from the remainder of the
    /// received bytes. If there is a valid content_type encoding, return
    /// Self::ExpectProtocolVersion, otherwise return Self::Failed
    pub fn parse_content_type(self) -> (next: Self)
        requires
            self is ExpectContentType,
        ensures
            next@ == after_content_type(self->ExpectContentType_remainder@),
    {
        let remainder = match self {
            Self::ExpectContentType { remainder } => remainder,
            _ => unreached(),
        };
        if remainder.len() < 1 {
            return Self::Failed;
        }
        let encoding: u8 = remainder[0];
        match ContentType::decode(encoding) {
            Ok(content_type) => Self::ExpectProtocolVersion {
                content_type,
                remainder: slice_subrange(remainder, 1, remainder.len()),
            },
            Err(_) => Self::Failed,
        }
    }

    /// Attempt to extract the protocol version encoding from the remainder of
    /// the received bytes. If there is a valid protocol_version encoding,
    /// return Self::ExpectLength, else return Self::Failed
    pub fn parse_protocol_version(self) -> (next: Self)
        requires
            self is ExpectProtocolVersion,
        ensures
            next@ == after_protocol_version(
                self->ExpectProtocolVersion_content_type,
                self->ExpectProtocolVersion_remainder@,
            ),
    {
        let (content_type, remainder) = match self {
            Self::ExpectProtocolVersion { content_type, remainder } => (content_type, remainder),
            _ => unreached(),
        };
        match ProtocolVersion::decode(remainder) {
            Ok(protocol_version) => Self::ExpectLength {
                content_type,
                protocol_version,
                remainder: slice_subrange(remainder, 2, remainder.len()),
            },
            Err(_) => Self::Failed,
        }
    }

    /// Attempt to extract the length encoding (big endian, aka network endian,
    /// aka lower memory address encodes more significant digit) from the
    /// remaining bytes. If there is a valid length, return
    /// Self::ExpectContent, else return Self::Failed
    pub fn parse_length(self) -> (next: Self)
        requires
            self is ExpectLength,
        ensures
            next@ == after_length(
                self->ExpectLength_content_type,
                self->ExpectLength_protocol_version,
                self->ExpectLength_remainder@,
            ),
    {
        let (content_type, protocol_version, remainder) = match self {
            Self::ExpectLength { content_type, protocol_version, remainder } => (
                content_type,
                protocol_version,
                remainder,
            ),
            _ => unreached(),
        };
        if remainder.len() < 2 {
            return Self::Failed;
        }
        let high: u8 = remainder[0];
        let low: u8 = remainder[1];
        let length: u16 = (high as u16) * 256 + (low as u16);
        if length > TLS_PLAINTEXT_MAX_LENGTH {
            return Self::Failed;
        }
        Self::ExpectContent {
            content_type,
            protocol_version,
            length,
            remainder: slice_subrange(remainder, 2, remainder.len()),
        }
    }

    /// Attempt to parse the content according to the previously parsed length
    pub fn parse_content(self) -> (next: Self)
        requires
            self is ExpectContent,
        ensures
            next@ == after_content(
                self->ExpectContent_content_type,
                self->ExpectContent_protocol_version,
                self->ExpectContent_length as nat,
                self->ExpectContent_remainder@,
            ),
    {
        let (content_type, legacy_record_version, length, remainder) = match self {
            Self::ExpectContent { content_type, protocol_version, length, remainder } => (
                content_type,
                protocol_version,
                length,
                remainder,
            ),
            _ => unreached(),
        };
        if remainder.len() != length as usize {
            return Self::Failed;
        }
        let fragment: Vec<u8> = slice_to_vec(remainder);
        let tls_plaintext = TLSPlaintext { content_type, legacy_record_version, length, fragment };
        Self::Finished { tls_plaintext }
    }
}

impl<'a> TLSPlaintextParser<'a> {
    /// Drive the parser to a halt: transition until a terminal state is
    /// reached. From the start state this decides whether the buffer holds
    /// exactly one record (see `lemma_run_decides_framing`).
    pub fn run(self) -> (last: Self)
        ensures
            last@ == self@.run(),
            last.halted(),
    {
        let mut parser = self;
        proof {
            lemma_step_progress(self@);
        }
        while !parser.is_halt()
            invariant
                parser@.run() == self@.run(),
                self@.run().halted(),
            decreases parser@.steps_left(),
        {
            proof {
                lemma_step_progress(parser@);
            }
            parser = parser.transition();
        }
        parser
    }
}

impl<'a> FiniteStateMachine for TLSPlaintextParser<'a> {
    type State = Self;

    open spec fn halted(&self) -> bool {
        self@.halted()
    }

    fn transition(self) -> (next: Self)
        ensures
            next@ == self@.step(),
    {
        match self {
            Self::ExpectContentType { .. } => self.parse_content_type(),
            Self::ExpectProtocolVersion { .. } => self.parse_protocol_version(),
            Self::ExpectLength { .. } => self.parse_length(),
            Self::ExpectContent { .. } => self.parse_content(),
            Self::Failed => self,
            Self::Finished { .. } => self,
        }
    }

    fn is_halt(&self) -> (halt: bool) {
        self.is_failed() || self.is_finished()
    }
}

} // verus!
