use red_quic::protocol::{Command, ProtocolError, HASH_WIDTH_IN_BYTES};

fn digest_bytes() -> [u8; 32] {
    let mut d = [0u8; 32];
    for (i, b) in d.iter_mut().enumerate() {
        *b = i as u8 + 1;
    }
    d
}

#[test]
fn encode_heartbeat_and_ack() {
    assert_eq!(Command::Heartbeat.encode(), vec![0x00]);
    assert_eq!(Command::AckOk.encode(), vec![0x02]);
}

#[test]
fn encode_hello() {
    let d = digest_bytes();
    let bytes = Command::Hello { service: d }.encode();
    assert_eq!(bytes.len(), 33);
    assert_eq!(bytes[0], 0x01);
    assert_eq!(&bytes[1..], &d[..]);
}

#[test]
fn encode_data_connect_big_endian() {
    let bytes = Command::DataConnect { transmission_type: 1, port: 0x0102_0304_0506_0708 }.encode();
    assert_eq!(bytes, vec![0x03, 0x01, 1, 2, 3, 4, 5, 6, 7, 8]);
}

#[test]
fn encode_error_ack_uses_ack_tag() {
    let bytes = Command::ErrorAck { error_type: 0xdead_beef }.encode();
    assert_eq!(bytes, vec![0x02, 0xde, 0xad, 0xbe, 0xef]);
}

#[test]
fn write_to_buf_appends() {
    let mut buf = vec![9u8, 9];
    Command::Heartbeat.write_to_buf(&mut buf);
    Command::DataConnect { transmission_type: 0, port: 80 }.write_to_buf(&mut buf);
    assert_eq!(buf, vec![9, 9, 0x00, 0x03, 0x00, 0, 0, 0, 0, 0, 0, 0, 80]);
}

#[test]
fn serialized_len_values() {
    assert_eq!(Command::Heartbeat.serialized_len(), 1);
    assert_eq!(Command::AckOk.serialized_len(), 1);
    assert_eq!(Command::Hello { service: [0; HASH_WIDTH_IN_BYTES] }.serialized_len(), 33);
    assert_eq!(Command::DataConnect { transmission_type: 0, port: 1 }.serialized_len(), 10);
    assert_eq!(Command::ErrorAck { error_type: 7 }.serialized_len(), 6);
}

#[test]
fn payload_len_per_tag() {
    assert_eq!(Command::payload_len(0), Some(0));
    assert_eq!(Command::payload_len(1), Some(32));
    assert_eq!(Command::payload_len(2), Some(0));
    assert_eq!(Command::payload_len(3), Some(9));
    assert_eq!(Command::payload_len(4), Some(4));
    assert_eq!(Command::payload_len(5), None);
    assert_eq!(Command::payload_len(0xff), None);
}

#[test]
fn decode_each_command() {
    assert_eq!(Command::decode(&[0x00]), Ok((1, Command::Heartbeat)));
    assert_eq!(Command::decode(&[0x02]), Ok((1, Command::AckOk)));
    assert_eq!(
        Command::decode(&[0x03, 0x01, 0, 0, 0, 0, 0, 0, 0x1f, 0x90]),
        Ok((10, Command::DataConnect { transmission_type: 1, port: 8080 }))
    );
    assert_eq!(
        Command::decode(&[0x04, 0, 0, 1, 0]),
        Ok((5, Command::ErrorAck { error_type: 256 }))
    );
    let d = digest_bytes();
    let mut bytes = vec![0x01];
    bytes.extend_from_slice(&d);
    assert_eq!(Command::decode(&bytes), Ok((33, Command::Hello { service: d })));
}

#[test]
fn decode_errors() {
    assert_eq!(Command::decode(&[]), Err(ProtocolError::UnexpectedEnd));
    assert_eq!(Command::decode(&[0x05]), Err(ProtocolError::UnsupportedCommand { tag: 5 }));
    assert_eq!(Command::decode(&[0x01, 1, 2, 3]), Err(ProtocolError::UnexpectedEnd));
    assert_eq!(Command::decode(&[0x03, 0, 0]), Err(ProtocolError::UnexpectedEnd));
    assert_eq!(Command::decode(&[0x04, 0, 0, 0]), Err(ProtocolError::UnexpectedEnd));
}

#[test]
fn decode_ignores_trailing_bytes() {
    assert_eq!(Command::decode(&[0x00, 0x01, 0x02]), Ok((1, Command::Heartbeat)));
    assert_eq!(Command::decode(&[0x04, 0, 0, 0, 9, 0xaa]), Ok((5, Command::ErrorAck { error_type: 9 })));
}

#[test]
fn roundtrip_all_but_error_ack() {
    let cmds = [
        Command::Heartbeat,
        Command::AckOk,
        Command::Hello { service: digest_bytes() },
        Command::DataConnect { transmission_type: 0, port: u64::MAX },
        Command::DataConnect { transmission_type: 7, port: 0 },
    ];
    for c in cmds {
        let bytes = c.encode();
        assert_eq!(bytes.len(), c.serialized_len());
        assert_eq!(Command::decode(&bytes), Ok((bytes.len(), c)));
    }
}

#[test]
fn error_ack_reads_back_as_ack_ok() {
    let bytes = Command::ErrorAck { error_type: 3 }.encode();
    assert_eq!(Command::decode(&bytes), Ok((1, Command::AckOk)));
}
