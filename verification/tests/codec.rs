use mavlink_ftp::mavftp::{DecodeError, MavlinkFtpNak, MavlinkFtpOpcode, MavlinkFtpPayload};

fn assert_same(a: &MavlinkFtpPayload, b: &MavlinkFtpPayload) {
    assert_eq!(a.seq_number, b.seq_number);
    assert_eq!(a.session, b.session);
    assert_eq!(a.opcode, b.opcode);
    assert_eq!(a.size, b.size);
    assert_eq!(a.req_opcode, b.req_opcode);
    assert_eq!(a.burst_complete, b.burst_complete);
    assert_eq!(a.padding, b.padding);
    assert_eq!(a.offset, b.offset);
    assert_eq!(a.data, b.data);
}

fn round_trip(p: &MavlinkFtpPayload) {
    let back = MavlinkFtpPayload::from_bytes(&p.to_bytes()).unwrap();
    assert_same(p, &back);
}

#[test]
fn reset_sessions_request_fields() {
    let p = MavlinkFtpPayload::new_reset_sesions(7, 3);
    assert_eq!(p.seq_number, 7);
    assert_eq!(p.session, 3);
    assert_eq!(p.opcode, MavlinkFtpOpcode::ResetSessions);
    assert_eq!(p.size, 0);
    assert_eq!(p.req_opcode, MavlinkFtpOpcode::NoOpcode);
    assert_eq!(p.burst_complete, 0);
    assert_eq!(p.padding, 0);
    assert_eq!(p.offset, 0);
    assert!(p.data.is_empty());
}

#[test]
fn reset_sessions_round_trip() {
    round_trip(&MavlinkFtpPayload::new_reset_sesions(1, 0));
    round_trip(&MavlinkFtpPayload::new_reset_sesions(65535, 255));
}

#[test]
fn terminate_session_round_trip() {
    let p = MavlinkFtpPayload::new_terminate_session(300, 9);
    assert_eq!(p.opcode, MavlinkFtpOpcode::TerminateSession);
    assert_eq!(p.size, 0);
    round_trip(&p);
}

#[test]
fn list_directory_round_trip() {
    let p = MavlinkFtpPayload::new_list_directory(2, 0, 17, "/fs/microsd");
    assert_eq!(p.opcode, MavlinkFtpOpcode::ListDirectory);
    assert_eq!(p.offset, 17);
    assert_eq!(p.size, 11);
    assert_eq!(p.data, b"/fs/microsd".to_vec());
    round_trip(&p);
}

#[test]
fn list_directory_with_empty_path_round_trip() {
    let p = MavlinkFtpPayload::new_list_directory(2, 0, 0, "");
    assert_eq!(p.size, 0);
    assert!(p.data.is_empty());
    round_trip(&p);
}

#[test]
fn open_file_round_trip() {
    let p = MavlinkFtpPayload::new_open_file(4, 1, "/log/a.ulg");
    assert_eq!(p.opcode, MavlinkFtpOpcode::OpenFileRO);
    assert_eq!(p.offset, 0);
    assert_eq!(p.size, 10);
    assert_eq!(p.data, b"/log/a.ulg".to_vec());
    round_trip(&p);
}

#[test]
fn calc_file_crc32_round_trip() {
    let p = MavlinkFtpPayload::new_calc_file_crc32(5, 0, "/etc/rc");
    assert_eq!(p.opcode, MavlinkFtpOpcode::CalcFileCRC32);
    assert_eq!(p.size, 7);
    assert_eq!(p.data, b"/etc/rc".to_vec());
    round_trip(&p);
}

#[test]
fn path_travels_as_utf8() {
    let p = MavlinkFtpPayload::new_open_file(1, 0, "/é");
    assert_eq!(p.size, 3);
    assert_eq!(p.data, vec![0x2f, 0xc3, 0xa9]);
    round_trip(&p);
}

#[test]
fn read_file_clamps_the_chunk_size() {
    assert_eq!(MavlinkFtpPayload::new_read_file(1, 0, 0, usize::MAX).size, 239);
    assert_eq!(MavlinkFtpPayload::new_read_file(1, 0, 0, 240).size, 239);
    assert_eq!(MavlinkFtpPayload::new_read_file(1, 0, 0, 239).size, 239);
    assert_eq!(MavlinkFtpPayload::new_read_file(1, 0, 0, 238).size, 238);
    assert_eq!(MavlinkFtpPayload::new_read_file(1, 0, 0, 0).size, 0);
    let p = MavlinkFtpPayload::new_read_file(8, 2, 4096, 100);
    assert_eq!(p.opcode, MavlinkFtpOpcode::BurstReadFile);
    assert_eq!(p.offset, 4096);
    assert_eq!(p.seq_number, 8);
    assert_eq!(p.session, 2);
    assert!(p.data.is_empty());
}

#[test]
fn read_file_round_trip_without_a_size() {
    round_trip(&MavlinkFtpPayload::new_read_file(1, 0, 77, 0));
}

#[test]
fn read_file_request_declares_data_it_does_not_carry() {
    let bytes = MavlinkFtpPayload::new_read_file(1, 0, 0, usize::MAX).to_bytes();
    assert_eq!(bytes.len(), 12);
    assert_eq!(bytes[4], 239);
    assert_eq!(
        MavlinkFtpPayload::from_bytes(&bytes).unwrap_err(),
        DecodeError::TruncatedBody
    );
}

#[test]
fn wire_layout_is_byte_exact() {
    let p = MavlinkFtpPayload {
        seq_number: 0x1234,
        session: 0x56,
        opcode: MavlinkFtpOpcode::Ack,
        size: 3,
        req_opcode: MavlinkFtpOpcode::BurstReadFile,
        burst_complete: 1,
        padding: 0,
        offset: 0x89abcdef,
        data: vec![0xaa, 0xbb, 0xcc],
    };
    assert_eq!(
        p.to_bytes(),
        vec![0x34, 0x12, 0x56, 128, 3, 15, 1, 0, 0xef, 0xcd, 0xab, 0x89, 0xaa, 0xbb, 0xcc]
    );
}

#[test]
fn decode_reads_every_field() {
    let bytes = vec![0x34, 0x12, 0x56, 129, 2, 3, 1, 9, 0xef, 0xcd, 0xab, 0x89, 6, 0];
    let p = MavlinkFtpPayload::from_bytes(&bytes).unwrap();
    assert_eq!(p.seq_number, 0x1234);
    assert_eq!(p.session, 0x56);
    assert_eq!(p.opcode, MavlinkFtpOpcode::Nak);
    assert_eq!(p.size, 2);
    assert_eq!(p.req_opcode, MavlinkFtpOpcode::ListDirectory);
    assert_eq!(p.burst_complete, 1);
    assert_eq!(p.padding, 9);
    assert_eq!(p.offset, 0x89abcdef);
    assert_eq!(p.data, vec![6, 0]);
}

#[test]
fn padding_is_carried_as_it_is() {
    let mut p = MavlinkFtpPayload::new_reset_sesions(1, 0);
    p.padding = 0x5a;
    assert_eq!(p.to_bytes()[7], 0x5a);
    round_trip(&p);
}

#[test]
fn size_field_keeps_the_low_eight_bits() {
    let mut p = MavlinkFtpPayload::new_reset_sesions(1, 0);
    p.size = 256 + 5;
    p.data = vec![1, 2, 3, 4, 5, 6, 7];
    let bytes = p.to_bytes();
    assert_eq!(bytes[4], 5);
    assert_eq!(bytes.len(), 12 + 7);
    let back = MavlinkFtpPayload::from_bytes(&bytes).unwrap();
    assert_eq!(back.size, 5);
    assert_eq!(back.data, vec![1, 2, 3, 4, 5]);
}

#[test]
fn largest_data_round_trip() {
    let mut p = MavlinkFtpPayload::new_reset_sesions(1, 0);
    p.opcode = MavlinkFtpOpcode::Ack;
    p.size = 255;
    p.data = (0..255u32).map(|i| i as u8).collect();
    round_trip(&p);
}

#[test]
fn decode_fails_on_short_header() {
    for len in 0..12usize {
        let bytes = vec![0u8; len];
        assert_eq!(
            MavlinkFtpPayload::from_bytes(&bytes).unwrap_err(),
            DecodeError::TruncatedHeader
        );
    }
}

#[test]
fn decode_accepts_a_bare_header() {
    let p = MavlinkFtpPayload::from_bytes(&[0u8; 12]).unwrap();
    assert_eq!(p.opcode, MavlinkFtpOpcode::NoOpcode);
    assert_eq!(p.size, 0);
    assert!(p.data.is_empty());
}

#[test]
fn decode_fails_on_short_body() {
    for size in 1..=255usize {
        let mut bytes = vec![0u8; 12 + size - 1];
        bytes[3] = 128;
        bytes[4] = size as u8;
        assert_eq!(
            MavlinkFtpPayload::from_bytes(&bytes).unwrap_err(),
            DecodeError::TruncatedBody
        );
    }
}

#[test]
fn decode_fails_on_unknown_opcode() {
    let mut bytes = vec![0u8; 12];
    bytes[3] = 16;
    assert_eq!(
        MavlinkFtpPayload::from_bytes(&bytes).unwrap_err(),
        DecodeError::UnknownOpcode
    );
    bytes[3] = 127;
    assert_eq!(
        MavlinkFtpPayload::from_bytes(&bytes).unwrap_err(),
        DecodeError::UnknownOpcode
    );
    bytes[3] = 130;
    assert_eq!(
        MavlinkFtpPayload::from_bytes(&bytes).unwrap_err(),
        DecodeError::UnknownOpcode
    );
}

#[test]
fn decode_fails_on_unknown_request_opcode() {
    let mut bytes = vec![0u8; 12];
    bytes[3] = 128;
    bytes[5] = 200;
    assert_eq!(
        MavlinkFtpPayload::from_bytes(&bytes).unwrap_err(),
        DecodeError::UnknownRequestOpcode
    );
}

#[test]
fn unknown_opcode_is_reported_before_a_short_body() {
    let mut bytes = vec![0u8; 12];
    bytes[3] = 16;
    bytes[4] = 1;
    assert_eq!(
        MavlinkFtpPayload::from_bytes(&bytes).unwrap_err(),
        DecodeError::UnknownOpcode
    );
    bytes[3] = 128;
    bytes[5] = 16;
    assert_eq!(
        MavlinkFtpPayload::from_bytes(&bytes).unwrap_err(),
        DecodeError::UnknownRequestOpcode
    );
}

#[test]
fn decode_ignores_trailing_bytes() {
    let mut bytes = MavlinkFtpPayload::new_open_file(1, 0, "/a").to_bytes();
    bytes.extend_from_slice(&[9, 9, 9]);
    let p = MavlinkFtpPayload::from_bytes(&bytes).unwrap();
    assert_eq!(p.size, 2);
    assert_eq!(p.data, b"/a".to_vec());
}

#[test]
fn opcode_codes() {
    let all = [
        (MavlinkFtpOpcode::NoOpcode, 0u8),
        (MavlinkFtpOpcode::TerminateSession, 1),
        (MavlinkFtpOpcode::ResetSessions, 2),
        (MavlinkFtpOpcode::ListDirectory, 3),
        (MavlinkFtpOpcode::OpenFileRO, 4),
        (MavlinkFtpOpcode::ReadFile, 5),
        (MavlinkFtpOpcode::CreateFile, 6),
        (MavlinkFtpOpcode::WriteFile, 7),
        (MavlinkFtpOpcode::RemoveFile, 8),
        (MavlinkFtpOpcode::CreateDirectory, 9),
        (MavlinkFtpOpcode::RemoveDirectory, 10),
        (MavlinkFtpOpcode::OpenFileWO, 11),
        (MavlinkFtpOpcode::TruncateFile, 12),
        (MavlinkFtpOpcode::Rename, 13),
        (MavlinkFtpOpcode::CalcFileCRC32, 14),
        (MavlinkFtpOpcode::BurstReadFile, 15),
        (MavlinkFtpOpcode::Ack, 128),
        (MavlinkFtpOpcode::Nak, 129),
    ];
    for (op, code) in all {
        assert_eq!(op.to_u8(), code);
        assert_eq!(MavlinkFtpOpcode::from_u8(code), Some(op));
    }
    let known = (0..=255u8)
        .filter(|code| MavlinkFtpOpcode::from_u8(*code).is_some())
        .count();
    assert_eq!(known, 18);
}

#[test]
fn nak_codes() {
    let all = [
        (MavlinkFtpNak::NoError, 0u8),
        (MavlinkFtpNak::Fail, 1),
        (MavlinkFtpNak::FailErrno, 2),
        (MavlinkFtpNak::InvalidDataSize, 3),
        (MavlinkFtpNak::InvalidSession, 4),
        (MavlinkFtpNak::NoSessionsAvailable, 5),
        (MavlinkFtpNak::EOF, 6),
        (MavlinkFtpNak::UnknownCommand, 7),
        (MavlinkFtpNak::FileExists, 8),
        (MavlinkFtpNak::FileProtected, 9),
        (MavlinkFtpNak::FileNotFound, 10),
    ];
    for (nak, code) in all {
        assert_eq!(nak.to_u8(), code);
        assert_eq!(MavlinkFtpNak::from_u8(code), Some(nak));
    }
    for code in 11..=255u8 {
        assert_eq!(MavlinkFtpNak::from_u8(code), None);
    }
}
