use tls_record::constants::{ContentType, ProtocolVersion};
use tls_record::fsm::FiniteStateMachine;
use tls_record::record_layer::{
    encode_record, Record, TLSCiphertext, TLSPlaintext, TLSPlaintextParser,
    TLS_PLAINTEXT_MAX_LENGTH,
};

fn header(length: u16) -> Vec<u8> {
    let mut buf = vec![0x17, 0x03, 0x04];
    buf.extend_from_slice(&length.to_be_bytes());
    buf
}

#[test]
fn start_is_not_halted() {
    let parser = TLSPlaintextParser::start(&[0x16]);
    assert!(!parser.is_halt());
    assert!(!parser.is_failed());
    assert!(!parser.is_finished());
    assert!(matches!(
        parser,
        TLSPlaintextParser::ExpectContentType { remainder } if remainder == [0x16]
    ));
}

#[test]
fn every_content_type_byte_is_parsed() {
    let table = [
        (0x00u8, ContentType::Invalid),
        (0x14, ContentType::ChangeCipherSpec),
        (0x15, ContentType::Alert),
        (0x16, ContentType::Handshake),
        (0x17, ContentType::ApplicationData),
    ];
    for (byte, expected) in table {
        let buf = [byte, 9];
        match TLSPlaintextParser::start(&buf).parse_content_type() {
            TLSPlaintextParser::ExpectProtocolVersion {
                content_type,
                remainder,
            } => {
                assert_eq!(content_type, expected);
                assert_eq!(remainder, &[9]);
            }
            _ => unreachable!(),
        }
    }
}

#[test]
fn content_type_as_last_byte_leaves_empty_window() {
    match TLSPlaintextParser::start(&[0x15]).parse_content_type() {
        TLSPlaintextParser::ExpectProtocolVersion { remainder, .. } => {
            assert!(remainder.is_empty());
        }
        _ => unreachable!(),
    }
}

#[test]
fn protocol_version_with_wrong_major_byte_fails() {
    let start = TLSPlaintextParser::ExpectProtocolVersion {
        content_type: ContentType::Alert,
        remainder: &[0x02, 0x03, 1],
    };
    assert!(start.parse_protocol_version().is_failed());
}

#[test]
fn protocol_version_zero_minor_fails() {
    let start = TLSPlaintextParser::ExpectProtocolVersion {
        content_type: ContentType::Alert,
        remainder: &[0x03, 0x00],
    };
    assert!(start.parse_protocol_version().is_failed());
}

#[test]
fn protocol_version_on_empty_window_fails() {
    let start = TLSPlaintextParser::ExpectProtocolVersion {
        content_type: ContentType::Alert,
        remainder: &[],
    };
    assert!(start.parse_protocol_version().is_failed());
}

#[test]
fn length_on_empty_window_fails() {
    let start = TLSPlaintextParser::ExpectLength {
        content_type: ContentType::Handshake,
        protocol_version: ProtocolVersion::TLSv1_2,
        remainder: &[],
    };
    assert!(start.parse_length().is_failed());
}

#[test]
fn length_is_big_endian() {
    let start = TLSPlaintextParser::ExpectLength {
        content_type: ContentType::Handshake,
        protocol_version: ProtocolVersion::TLSv1_2,
        remainder: &[0x12, 0x34],
    };
    match start.parse_length() {
        TLSPlaintextParser::ExpectContent {
            length, remainder, ..
        } => {
            assert_eq!(length, 0x1234);
            assert!(remainder.is_empty());
        }
        _ => unreachable!(),
    }
}

#[test]
fn length_at_the_maximum_is_accepted() {
    let start = TLSPlaintextParser::ExpectLength {
        content_type: ContentType::Handshake,
        protocol_version: ProtocolVersion::TLSv1_2,
        remainder: &[0x40, 0x00, 7],
    };
    match start.parse_length() {
        TLSPlaintextParser::ExpectContent {
            content_type,
            protocol_version,
            length,
            remainder,
        } => {
            assert_eq!(content_type, ContentType::Handshake);
            assert_eq!(protocol_version, ProtocolVersion::TLSv1_2);
            assert_eq!(length, 16384);
            assert_eq!(length, TLS_PLAINTEXT_MAX_LENGTH);
            assert_eq!(remainder, &[7]);
        }
        _ => unreachable!(),
    }
}

#[test]
fn length_of_all_ones_fails() {
    let start = TLSPlaintextParser::ExpectLength {
        content_type: ContentType::Handshake,
        protocol_version: ProtocolVersion::TLSv1_2,
        remainder: &[0xff, 0xff],
    };
    assert!(start.parse_length().is_failed());
}

#[test]
fn overflow_fails_even_with_enough_bytes() {
    let mut buf = header(16385);
    buf.extend_from_slice(&vec![0u8; 16385]);
    let last = TLSPlaintextParser::start(&buf).run();
    assert!(last.is_failed());
}

#[test]
fn largest_record_is_parsed() {
    let payload: Vec<u8> = (0..16384u32).map(|i| (i % 251) as u8).collect();
    let mut buf = header(16384);
    buf.extend_from_slice(&payload);
    match TLSPlaintextParser::start(&buf).run() {
        TLSPlaintextParser::Finished { tls_plaintext } => {
            assert_eq!(tls_plaintext.content_type, ContentType::ApplicationData);
            assert_eq!(tls_plaintext.legacy_record_version, ProtocolVersion::TLSv1_3);
            assert_eq!(tls_plaintext.length, 16384);
            assert_eq!(tls_plaintext.fragment, payload);
        }
        _ => unreachable!(),
    }
}

#[test]
fn content_with_trailing_bytes_fails() {
    let start = TLSPlaintextParser::ExpectContent {
        content_type: ContentType::Handshake,
        protocol_version: ProtocolVersion::TLSv1_2,
        length: 3u16,
        remainder: &[6, 9, 4, 2, 0],
    };
    assert!(start.parse_content().is_failed());
}

#[test]
fn empty_content_is_a_record() {
    let start = TLSPlaintextParser::ExpectContent {
        content_type: ContentType::ChangeCipherSpec,
        protocol_version: ProtocolVersion::TLSv1_1,
        length: 0u16,
        remainder: &[],
    };
    match start.parse_content() {
        TLSPlaintextParser::Finished { tls_plaintext } => {
            assert_eq!(tls_plaintext.content_type, ContentType::ChangeCipherSpec);
            assert_eq!(tls_plaintext.legacy_record_version, ProtocolVersion::TLSv1_1);
            assert_eq!(tls_plaintext.length, 0);
            assert!(tls_plaintext.fragment.is_empty());
        }
        _ => unreachable!(),
    }
}

#[test]
fn content_keeps_header_fields() {
    let start = TLSPlaintextParser::ExpectContent {
        content_type: ContentType::Alert,
        protocol_version: ProtocolVersion::TLSv1_0,
        length: 2u16,
        remainder: &[2, 40],
    };
    match start.parse_content() {
        TLSPlaintextParser::Finished { tls_plaintext } => {
            assert_eq!(tls_plaintext.content_type, ContentType::Alert);
            assert_eq!(tls_plaintext.legacy_record_version, ProtocolVersion::TLSv1_0);
            assert_eq!(tls_plaintext.length, 2);
            assert_eq!(tls_plaintext.fragment, vec![2, 40]);
        }
        _ => unreachable!(),
    }
}

#[test]
fn transition_takes_one_step_at_a_time() {
    let buf = [0x16, 0x03, 0x03, 0x00, 0x01, 0xaa];
    let s0 = TLSPlaintextParser::start(&buf);
    let s1 = s0.transition();
    assert!(matches!(
        s1,
        TLSPlaintextParser::ExpectProtocolVersion {
            content_type: ContentType::Handshake,
            remainder
        } if remainder == [0x03, 0x03, 0x00, 0x01, 0xaa]
    ));
    assert!(!s1.is_halt());
    let s2 = s1.transition();
    assert!(matches!(
        s2,
        TLSPlaintextParser::ExpectLength {
            content_type: ContentType::Handshake,
            protocol_version: ProtocolVersion::TLSv1_2,
            remainder
        } if remainder == [0x00, 0x01, 0xaa]
    ));
    assert!(!s2.is_halt());
    let s3 = s2.transition();
    assert!(matches!(
        s3,
        TLSPlaintextParser::ExpectContent {
            content_type: ContentType::Handshake,
            protocol_version: ProtocolVersion::TLSv1_2,
            length: 1,
            remainder
        } if remainder == [0xaa]
    ));
    assert!(!s3.is_halt());
    let s4 = s3.transition();
    assert!(s4.is_halt());
    assert!(s4.is_finished());
    assert!(!s4.is_failed());
}

#[test]
fn failed_stays_failed() {
    let failed = TLSPlaintextParser::Failed;
    assert!(failed.is_halt());
    let again = failed.transition();
    assert!(again.is_failed());
    assert!(!again.is_finished());
    let again = again.transition().transition();
    assert!(matches!(again, TLSPlaintextParser::Failed));
}

#[test]
fn finished_stays_finished() {
    let finished = TLSPlaintextParser::Finished {
        tls_plaintext: TLSPlaintext {
            content_type: ContentType::Alert,
            legacy_record_version: ProtocolVersion::TLSv1_3,
            // a terminal state is handed back as it is, whatever it holds
            length: 9,
            fragment: vec![1, 2, 3],
        },
    };
    assert!(finished.is_halt());
    let again = finished.transition().transition();
    assert!(again.is_finished());
    assert!(!again.is_failed());
    match again {
        TLSPlaintextParser::Finished { tls_plaintext } => {
            assert_eq!(tls_plaintext.content_type, ContentType::Alert);
            assert_eq!(tls_plaintext.legacy_record_version, ProtocolVersion::TLSv1_3);
            assert_eq!(tls_plaintext.length, 9);
            assert_eq!(tls_plaintext.fragment, vec![1, 2, 3]);
        }
        _ => unreachable!(),
    }
}

#[test]
fn run_on_a_halted_state_returns_it() {
    assert!(TLSPlaintextParser::Failed.run().is_failed());
}

#[test]
fn run_from_a_middle_state() {
    let middle = TLSPlaintextParser::ExpectLength {
        content_type: ContentType::Handshake,
        protocol_version: ProtocolVersion::TLSv1_0,
        remainder: &[0x00, 0x02, 5, 6],
    };
    match middle.run() {
        TLSPlaintextParser::Finished { tls_plaintext } => {
            assert_eq!(tls_plaintext.content_type, ContentType::Handshake);
            assert_eq!(tls_plaintext.legacy_record_version, ProtocolVersion::TLSv1_0);
            assert_eq!(tls_plaintext.length, 2);
            assert_eq!(tls_plaintext.fragment, vec![5, 6]);
        }
        _ => unreachable!(),
    }
}

#[test]
fn run_fails_on_every_truncated_header() {
    let full = [0x16, 0x03, 0x03, 0x00, 0x00];
    assert!(TLSPlaintextParser::start(&full).run().is_finished());
    for cut in 0..full.len() {
        assert!(TLSPlaintextParser::start(&full[..cut]).run().is_failed());
    }
}

#[test]
fn run_fails_on_short_and_long_fragments() {
    let short = [0x16, 0x03, 0x03, 0x00, 0x0a, 1, 2, 3, 4, 5];
    assert!(TLSPlaintextParser::start(&short).run().is_failed());
    let long = [0x16, 0x03, 0x03, 0x00, 0x03, 1, 2, 3, 4, 5];
    assert!(TLSPlaintextParser::start(&long).run().is_failed());
}

#[test]
fn run_fails_on_unmapped_fields() {
    let bad_type = [0x18, 0x03, 0x03, 0x00, 0x01, 1];
    assert!(TLSPlaintextParser::start(&bad_type).run().is_failed());
    let bad_version = [0x16, 0x03, 0x05, 0x00, 0x01, 1];
    assert!(TLSPlaintextParser::start(&bad_version).run().is_failed());
}

#[test]
fn encode_record_lays_out_the_fields_in_order() {
    let bytes = encode_record(
        ContentType::Handshake,
        ProtocolVersion::TLSv1_2,
        0x1234,
        &[0xde, 0xad],
    );
    assert_eq!(bytes, vec![0x16, 0x03, 0x03, 0x12, 0x34, 0xde, 0xad]);
}

#[test]
fn encode_record_with_empty_payload() {
    let bytes = encode_record(ContentType::Invalid, ProtocolVersion::TLSv1_1, 0, &[]);
    assert_eq!(bytes, vec![0x00, 0x03, 0x02, 0x00, 0x00]);
}

#[test]
fn plaintext_length_is_written_as_given() {
    let record = TLSPlaintext {
        content_type: ContentType::Alert,
        legacy_record_version: ProtocolVersion::TLSv1_3,
        length: 0xffff,
        fragment: vec![1u8],
    };
    let bytes: Vec<u8> = record.into();
    assert_eq!(bytes, vec![0x15, 0x03, 0x04, 0xff, 0xff, 1]);
}

#[test]
fn ciphertext_serialization() {
    let record = TLSCiphertext {
        opaque_type: ContentType::ApplicationData,
        legacy_record_version: ProtocolVersion::TLSv1_2,
        length: 0x0103,
        encrypted_record: vec![9u8, 8, 7],
    };
    let bytes: Vec<u8> = record.into();
    assert_eq!(bytes, vec![0x17, 0x03, 0x03, 0x01, 0x03, 9, 8, 7]);
}

#[test]
fn ciphertext_length_above_plaintext_maximum_is_written() {
    let record: Record<Vec<u8>> = Record::TLSCiphertext(TLSCiphertext {
        opaque_type: ContentType::ApplicationData,
        legacy_record_version: ProtocolVersion::TLSv1_2,
        length: 16385,
        encrypted_record: vec![],
    });
    let bytes: Vec<u8> = record.into();
    assert_eq!(bytes, vec![0x17, 0x03, 0x03, 0x40, 0x01]);
}

#[test]
fn payload_of_another_type_is_converted() {
    let record = TLSPlaintext {
        content_type: ContentType::ApplicationData,
        legacy_record_version: ProtocolVersion::TLSv1_2,
        length: 2,
        fragment: String::from("hi"),
    };
    let bytes: Vec<u8> = record.into();
    assert_eq!(bytes, vec![0x17, 0x03, 0x03, 0x00, 0x02, b'h', b'i']);
}

#[test]
fn round_trip_of_records() {
    let types = [
        ContentType::Invalid,
        ContentType::ChangeCipherSpec,
        ContentType::Alert,
        ContentType::Handshake,
        ContentType::ApplicationData,
    ];
    let versions = [
        ProtocolVersion::TLSv1_0,
        ProtocolVersion::TLSv1_1,
        ProtocolVersion::TLSv1_2,
        ProtocolVersion::TLSv1_3,
    ];
    let payloads: [Vec<u8>; 4] = [
        vec![],
        vec![0xff],
        vec![0, 1, 2, 3, 4],
        (0..300u32).map(|i| (i % 256) as u8).collect(),
    ];
    for content_type in types {
        for version in versions {
            for payload in &payloads {
                let record = TLSPlaintext {
                    content_type,
                    legacy_record_version: version,
                    length: payload.len() as u16,
                    fragment: payload.clone(),
                };
                let bytes: Vec<u8> = record.into();
                assert_eq!(bytes.len(), 5 + payload.len());
                match TLSPlaintextParser::start(&bytes).run() {
                    TLSPlaintextParser::Finished { tls_plaintext } => {
                        assert_eq!(tls_plaintext.content_type, content_type);
                        assert_eq!(tls_plaintext.legacy_record_version, version);
                        assert_eq!(tls_plaintext.length as usize, payload.len());
                        assert_eq!(&tls_plaintext.fragment, payload);
                    }
                    _ => unreachable!(),
                }
            }
        }
    }
}

#[test]
fn record_with_mismatched_length_does_not_parse_back() {
    let record = TLSPlaintext {
        content_type: ContentType::Handshake,
        legacy_record_version: ProtocolVersion::TLSv1_2,
        length: 4,
        fragment: vec![1u8, 2, 3],
    };
    let bytes: Vec<u8> = record.into();
    assert!(TLSPlaintextParser::start(&bytes).run().is_failed());
}
