//! The two enumerations of the record header and their fixed-width codecs.

use vstd::prelude::*;

verus! {

/// Why a header field could not be decoded.
#[derive(Debug, Clone, Copy, PartialEq, Eq, Structural)]
pub enum CodecError {
    /// Fewer bytes were supplied than the field is wide.
    InvalidLength,
    /// The bytes are not in the field's table.
    InvalidEncoding,
}

/// Each type is exactly one byte wide
#[derive(Debug, Clone, Copy, PartialEq, Eq, Structural)]
pub enum ContentType {
    Invalid,
    ChangeCipherSpec,
    Alert,
    Handshake,
    ApplicationData,
}

/// Each type is exactly two bytes wide, most significant byte first
#[allow(non_camel_case_types)]
#[derive(Debug, Clone, Copy, PartialEq, Eq, Structural)]
pub enum ProtocolVersion {
    TLSv1_0,
    TLSv1_1,
    TLSv1_2,
    TLSv1_3,
}

impl ContentType {
    /// The byte that stands for this content type on the wire.
    pub open spec fn wire(self) -> u8 {
        match self {
            ContentType::Invalid => 0x00,
            ContentType::ChangeCipherSpec => 0x14,
            ContentType::Alert => 0x15,
            ContentType::Handshake => 0x16,
            ContentType::ApplicationData => 0x17,
        }
    }

    /// The content type that a byte stands for, if it is in the table.
    pub open spec fn from_wire(byte: u8) -> Option<ContentType> {
        if byte == 0x00 {
            Some(ContentType::Invalid)
        } else if byte == 0x14 {
            Some(ContentType::ChangeCipherSpec)
        } else if byte == 0x15 {
            Some(ContentType::Alert)
        } else if byte == 0x16 {
            Some(ContentType::Handshake)
        } else if byte == 0x17 {
            Some(ContentType::ApplicationData)
        } else {
            None
        }
    }

    /// Encode the content type as its single wire byte.
    pub fn encode(self) -> (byte: u8)
        ensures
            byte == self.wire(),
    {
        match self {
            ContentType::Invalid => 0x00,
            ContentType::ChangeCipherSpec => 0x14,
            ContentType::Alert => 0x15,
            ContentType::Handshake => 0x16,
            ContentType::ApplicationData => 0x17,
        }
    }

    /// Decode a wire byte. Any byte outside the table is an error; there is
    /// no fallback value.
    pub fn decode(byte: u8) -> (decoded: Result<ContentType, CodecError>)
        ensures
            decoded == match ContentType::from_wire(byte) {
                Some(content_type) => Ok::<ContentType, CodecError>(content_type),
                None => Err(CodecError::InvalidEncoding),
            },
    {
        match byte {
            0x00 => Ok(ContentType::Invalid),
            0x14 => Ok(ContentType::ChangeCipherSpec),
            0x15 => Ok(ContentType::Alert),
            0x16 => Ok(ContentType::Handshake),
            0x17 => Ok(ContentType::ApplicationData),
            _ => Err(CodecError::InvalidEncoding),
        }
    }

    /// Decoding inverts encoding, and only table bytes decode at all.
    pub proof fn lemma_wire_round_trip(self)
        ensures
            ContentType::from_wire(self.wire()) == Some(self),
    {
    }

    /// A byte decodes to a content type exactly when that content type
    /// encodes to the byte.
    pub proof fn lemma_from_wire_exact(byte: u8, content_type: ContentType)
        ensures
            ContentType::from_wire(byte) == Some(content_type) <==> content_type.wire() == byte,
    {
    }
}

impl ProtocolVersion {
    /// The low byte of the version on the wire; the high byte is always 0x03.
    pub open spec fn minor(self) -> u8 {
        match self {
            ProtocolVersion::TLSv1_0 => 0x01,
            ProtocolVersion::TLSv1_1 => 0x02,
            ProtocolVersion::TLSv1_2 => 0x03,
            ProtocolVersion::TLSv1_3 => 0x04,
        }
    }

    /// The two bytes that stand for this version on the wire.
    pub open spec fn wire(self) -> Seq<u8> {
        seq![0x03u8, self.minor()]
    }

    /// The version that the two leading bytes stand for, if they are in the
    /// table.
    pub open spec fn from_wire(major: u8, minor: u8) -> Option<ProtocolVersion> {
        if major != 0x03 {
            None
        } else if minor == 0x01 {
            Some(ProtocolVersion::TLSv1_0)
        } else if minor == 0x02 {
            Some(ProtocolVersion::TLSv1_1)
        } else if minor == 0x03 {
            Some(ProtocolVersion::TLSv1_2)
        } else if minor == 0x04 {
            Some(ProtocolVersion::TLSv1_3)
        } else {
            None
        }
    }

    /// What decoding yields on a byte sequence: too short is a length error,
    /// leading bytes outside the table an encoding error.
    pub open spec fn decode_spec(bytes: Seq<u8>) -> Result<ProtocolVersion, CodecError> {
        if bytes.len() < 2 {
            Err(CodecError::InvalidLength)
        } else {
            match ProtocolVersion::from_wire(bytes[0], bytes[1]) {
                Some(version) => Ok(version),
                None => Err(CodecError::InvalidEncoding),
            }
        }
    }

    /// Encode the version as its two wire bytes, big-endian.
    pub fn encode(self) -> (bytes: [u8; 2])
        ensures
            bytes@ == self.wire(),
    {
        let bytes: [u8; 2] = match self {
            ProtocolVersion::TLSv1_0 => [0x03, 0x01],
            ProtocolVersion::TLSv1_1 => [0x03, 0x02],
            ProtocolVersion::TLSv1_2 => [0x03, 0x03],
            ProtocolVersion::TLSv1_3 => [0x03, 0x04],
        };
        assert(bytes@ =~= self.wire());
        bytes
    }

    /// Decode the two leading bytes of `bytes`; whatever follows them is
    /// not looked at.
    pub fn decode(bytes: &[u8]) -> (decoded: Result<ProtocolVersion, CodecError>)
        ensures
            decoded == ProtocolVersion::decode_spec(bytes@),
    {
        if bytes.len() < 2 {
            return Err(CodecError::InvalidLength);
        }
        let major: u8 = bytes[0];
        let minor: u8 = bytes[1];
        if major != 0x03 {
            return Err(CodecError::InvalidEncoding);
        }
        match minor {
            0x01 => Ok(ProtocolVersion::TLSv1_0),
            0x02 => Ok(ProtocolVersion::TLSv1_1),
            0x03 => Ok(ProtocolVersion::TLSv1_2),
            0x04 => Ok(ProtocolVersion::TLSv1_3),
            _ => Err(CodecError::InvalidEncoding),
        }
    }

    /// Decoding inverts encoding.
    pub proof fn lemma_wire_round_trip(self)
        ensures
            ProtocolVersion::decode_spec(self.wire()) == Ok::<ProtocolVersion, CodecError>(self),
    {
    }

    /// Two bytes decode to a version exactly when that version encodes to
    /// them.
    pub proof fn lemma_from_wire_exact(major: u8, minor: u8, version: ProtocolVersion)
        ensures
            ProtocolVersion::from_wire(major, minor) == Some(version) <==> version.wire()
                =~= seq![major, minor],
    {
        if version.wire() =~= seq![major, minor] {
            assert(version.wire()[0] == major);
            assert(version.wire()[1] == minor);
        }
    }
}

} // verus!
