use ru5102::{
    calculate_crc, check_status, inventory_command, inventory_reply, kill_command,
    parse_inventory, read_data_command, read_data_reply, reader_information_command,
    reader_information_reply, write_data_command, Command, CommandType, Error, KillCommand,
    MemoryLocation, ReadCommand, ReaderInformation, Response, ResponseStatus, StatusClass,
    WriteCommand,
};

fn program_message(r: Result<impl std::fmt::Debug, Error>) -> String {
    match r {
        Err(Error::Program(m)) => m,
        other => panic!("expected a program error, got {:?}", other),
    }
}

fn framed(address: u8, code: u8, payload: &[u8]) -> Vec<u8> {
    let mut v = vec![(payload.len() + 4) as u8, address, code];
    v.extend_from_slice(payload);
    let crc = calculate_crc(&v);
    v.push((crc & 0xFF) as u8);
    v.push((crc >> 8) as u8);
    v
}

#[test]
fn test_crc() {
    assert_eq!(calculate_crc(b"abcdef"), 64265)
}

#[test]
fn test_command() {
    assert_eq!(
        Command {
            address: 10,
            command: CommandType::Inventory,
            data: Vec::new()
        }
        .to_bytes()
        .unwrap(),
        [4, 10, 0x01, 171, 182]
    );
}

#[test]
fn test_response() {
    assert_eq!(
        Response::from_bytes(&[5, 0, 1, 251, 242, 61]).unwrap(),
        Response {
            address: 0,
            command: 1,
            status: ResponseStatus::NoTags,
            data: Vec::new()
        }
    );
}

#[test]
fn crc_of_empty_and_single_byte_differ() {
    assert_ne!(calculate_crc(b""), calculate_crc(b"a"));
    assert_eq!(calculate_crc(b"abcdef"), calculate_crc(&[97, 98, 99, 100, 101, 102]));
}

#[test]
fn response_with_altered_crc_is_refused() {
    assert_eq!(
        program_message(Response::from_bytes(&[5, 0, 1, 251, 242, 62])),
        "Bad CRC"
    );
    assert_eq!(
        program_message(Response::from_bytes(&[5, 0, 1, 251, 243, 61])),
        "Bad CRC"
    );
}

#[test]
fn response_with_wrong_length_byte_is_refused() {
    assert_eq!(
        program_message(Response::from_bytes(&[6, 0, 1, 251, 242, 61])),
        "Bad length"
    );
    assert_eq!(program_message(Response::from_bytes(&[4, 0, 1, 242, 61])), "Bad length");
    assert_eq!(program_message(Response::from_bytes(&[])), "Bad length");
}

#[test]
fn response_with_unknown_status_is_refused() {
    let bytes = framed(0, 1, &[0x42]);
    assert_eq!(program_message(Response::from_bytes(&bytes)), "Unknown status code");
}

#[test]
fn response_carries_payload() {
    let bytes = framed(3, 0x21, &[0x00, 1, 2, 3]);
    let r = Response::from_bytes(&bytes).unwrap();
    assert_eq!(r.address, 3);
    assert_eq!(r.command, 0x21);
    assert_eq!(r.status, ResponseStatus::OK);
    assert_eq!(r.data, vec![1, 2, 3]);
}

#[test]
fn command_round_trip_keeps_fields() {
    for len in [0usize, 1, 17, 251] {
        let payload: Vec<u8> = (0..len).map(|i| (i * 7) as u8).collect();
        let cmd = Command {
            address: 0xFF,
            command: CommandType::WriteData,
            data: payload.clone(),
        };
        let bytes = cmd.to_bytes().unwrap();
        assert_eq!(bytes.len(), len + 5);
        assert_eq!(bytes[0] as usize, len + 4);
        assert_eq!(Command::from_bytes(&bytes).unwrap(), cmd);
    }
}

#[test]
fn command_with_oversized_payload_is_refused() {
    let cmd = Command {
        address: 0,
        command: CommandType::ReadData,
        data: vec![0; 252],
    };
    assert_eq!(program_message(cmd.to_bytes()), "Payload too long");
}

#[test]
fn command_decoding_checks_crc_and_code() {
    let mut bytes = Command {
        address: 1,
        command: CommandType::KillTag,
        data: vec![9, 8],
    }
    .to_bytes()
    .unwrap();
    let last = bytes.len() - 1;
    bytes[last] ^= 1;
    assert_eq!(program_message(Command::from_bytes(&bytes)), "Bad CRC");
    let unknown = framed(1, 0x7E, &[]);
    assert_eq!(program_message(Command::from_bytes(&unknown)), "Unknown command code");
}

#[test]
fn inventory_payload_yields_each_tag() {
    let payload = [2, 4, 0xAA, 0xBB, 0xCC, 0xDD, 2, 0x11, 0x22, 0x33, 0x44];
    // The second record announces 2 bytes.
    assert_eq!(
        parse_inventory(&payload).unwrap(),
        vec![vec![0xAA, 0xBB, 0xCC, 0xDD], vec![0x11, 0x22]]
    );
    let payload = [2, 4, 0xAA, 0xBB, 0xCC, 0xDD, 4, 0x11, 0x22, 0x33, 0x44];
    assert_eq!(
        parse_inventory(&payload).unwrap(),
        vec![vec![0xAA, 0xBB, 0xCC, 0xDD], vec![0x11, 0x22, 0x33, 0x44]]
    );
}

#[test]
fn inventory_payload_that_ends_early_is_refused() {
    assert_eq!(program_message(parse_inventory(&[])), "Malformed inventory");
    assert_eq!(program_message(parse_inventory(&[2, 1, 5])), "Malformed inventory");
    assert_eq!(program_message(parse_inventory(&[1, 3, 5, 6])), "Malformed inventory");
    assert_eq!(parse_inventory(&[0]).unwrap(), Vec::<Vec<u8>>::new());
}

#[test]
fn inventory_with_no_tags_is_empty_not_an_error() {
    let resp = Response {
        address: 0,
        command: 1,
        status: ResponseStatus::NoTags,
        data: Vec::new(),
    };
    assert_eq!(inventory_reply(&resp).unwrap(), Vec::<Vec<u8>>::new());
    let resp = Response::from_bytes(&[5, 0, 1, 251, 242, 61]).unwrap();
    assert_eq!(inventory_reply(&resp).unwrap(), Vec::<Vec<u8>>::new());
}

#[test]
fn inventory_reply_classifies_failures() {
    let resp = Response {
        address: 0,
        command: 1,
        status: ResponseStatus::PoorCommunication,
        data: Vec::new(),
    };
    assert!(matches!(
        inventory_reply(&resp),
        Err(Error::Communication(ResponseStatus::PoorCommunication))
    ));
    let resp = Response {
        address: 0,
        command: 1,
        status: ResponseStatus::MoreData,
        data: vec![1, 2, 7, 8],
    };
    assert_eq!(inventory_reply(&resp).unwrap(), vec![vec![7, 8]]);
}

const ALL_CODES: [(u8, ResponseStatus, StatusClass); 18] = [
    (0x00, ResponseStatus::OK, StatusClass::Success),
    (0x01, ResponseStatus::ReturnBeforeInventoryFinished, StatusClass::Success),
    (0x02, ResponseStatus::ScanTimeOverflow, StatusClass::Success),
    (0x03, ResponseStatus::MoreData, StatusClass::Success),
    (0x04, ResponseStatus::ReaderFlashFull, StatusClass::Program),
    (0x05, ResponseStatus::AccessPasswordError, StatusClass::Protocol),
    (0x09, ResponseStatus::KillTagError, StatusClass::Protocol),
    (0x0A, ResponseStatus::KillPasswordZero, StatusClass::Protocol),
    (0x0B, ResponseStatus::CommandNotSupported, StatusClass::Protocol),
    (0x13, ResponseStatus::SaveFail, StatusClass::Program),
    (0x14, ResponseStatus::CannotAdjust, StatusClass::Program),
    (0xF9, ResponseStatus::CommandExecuteError, StatusClass::Program),
    (0xFA, ResponseStatus::PoorCommunication, StatusClass::Communication),
    (0xFB, ResponseStatus::NoTags, StatusClass::Communication),
    (0xFC, ResponseStatus::TagError, StatusClass::Program),
    (0xFD, ResponseStatus::WrongLength, StatusClass::Program),
    (0xFE, ResponseStatus::IllegalCommand, StatusClass::Program),
    (0xFF, ResponseStatus::ParameterError, StatusClass::Program),
];

#[test]
fn every_status_has_one_class_and_matching_error() {
    for (code, status, class) in ALL_CODES {
        assert_eq!(ResponseStatus::from_code(code), Some(status));
        assert_eq!(status.code(), code);
        assert_eq!(status.class(), class);
        assert_eq!(status.is_success(), class == StatusClass::Success);
        let r = check_status(status);
        match class {
            StatusClass::Success => assert!(r.is_ok()),
            StatusClass::Communication => {
                assert!(matches!(r, Err(Error::Communication(s)) if s == status))
            }
            StatusClass::Protocol => assert!(matches!(r, Err(Error::Protocol(s)) if s == status)),
            StatusClass::Program => assert!(matches!(r, Err(Error::Program(_)))),
        }
    }
    let known: Vec<u8> = ALL_CODES.iter().map(|c| c.0).collect();
    for b in 0..=255u8 {
        assert_eq!(ResponseStatus::from_code(b).is_some(), known.contains(&b));
    }
}

#[test]
fn program_errors_carry_messages() {
    assert_eq!(
        program_message(check_status(ResponseStatus::WrongLength)),
        "Wrong command length"
    );
    assert_eq!(
        program_message(check_status(ResponseStatus::IllegalCommand)),
        "Illegal command"
    );
    assert_eq!(
        program_message(check_status(ResponseStatus::ParameterError)),
        "Parameter error"
    );
    assert_eq!(
        program_message(check_status(ResponseStatus::ReaderFlashFull)),
        "Invalid status response: ReaderFlashFull"
    );
    match Error::from_status(ResponseStatus::OK) {
        Error::Program(m) => assert_eq!(m, "Invalid status response: OK"),
        other => panic!("unexpected {:?}", other),
    }
}

fn read_cmd() -> ReadCommand {
    ReadCommand {
        epc: vec![0xE2, 0x00, 0x12, 0x34],
        location: MemoryLocation::TID,
        start_address: 3,
        count: 6,
        password: None,
        mask_address: None,
        mask_length: None,
    }
}

#[test]
fn read_command_without_password_sends_zeros() {
    assert_eq!(
        read_cmd().to_bytes().unwrap(),
        vec![2, 0xE2, 0x00, 0x12, 0x34, 0x02, 3, 6, 0, 0, 0, 0]
    );
    let mut c = read_cmd();
    c.password = Some(vec![1, 2, 3, 4]);
    c.mask_address = Some(8);
    c.mask_length = Some(16);
    assert_eq!(
        c.to_bytes().unwrap(),
        vec![2, 0xE2, 0x00, 0x12, 0x34, 0x02, 3, 6, 1, 2, 3, 4, 8, 16]
    );
}

#[test]
fn read_command_refuses_bad_fields() {
    let mut c = read_cmd();
    c.mask_address = Some(8);
    assert_eq!(
        program_message(c.to_bytes()),
        "Mask address and length must be given together"
    );
    let mut c = read_cmd();
    c.mask_length = Some(8);
    assert_eq!(
        program_message(c.to_bytes()),
        "Mask address and length must be given together"
    );
    let mut c = read_cmd();
    c.epc = vec![1, 2, 3];
    assert_eq!(program_message(c.to_bytes()), "EPC length must be even");
    let mut c = read_cmd();
    c.password = Some(vec![1, 2, 3]);
    assert_eq!(program_message(c.to_bytes()), "Password must be 4 bytes");
    let mut c = read_cmd();
    c.epc = vec![0; 512];
    assert_eq!(program_message(c.to_bytes()), "EPC too long");
}

#[test]
fn write_command_layout() {
    let c = WriteCommand {
        epc: vec![0xAB, 0xCD],
        location: MemoryLocation::User,
        start_address: 1,
        data: vec![5, 6, 7, 8],
        password: None,
        mask_address: None,
        mask_length: None,
    };
    assert_eq!(
        c.to_bytes().unwrap(),
        vec![2, 1, 0xAB, 0xCD, 0x03, 1, 5, 6, 7, 8, 0, 0, 0, 0]
    );
    let mut odd = c;
    odd.data = vec![1, 2, 3];
    assert_eq!(program_message(odd.to_bytes()), "Data length must be even");
    odd.data = vec![1, 2];
    odd.mask_length = Some(4);
    assert_eq!(
        program_message(odd.to_bytes()),
        "Mask address and length must be given together"
    );
}

#[test]
fn kill_command_layout() {
    let c = KillCommand {
        epc: vec![0x01, 0x02],
        password: Some(vec![9, 9, 9, 9]),
        mask_address: Some(0),
        mask_length: Some(32),
    };
    assert_eq!(c.to_bytes().unwrap(), vec![1, 0x01, 0x02, 9, 9, 9, 9, 0, 32]);
    let c = KillCommand {
        epc: vec![0x01, 0x02],
        password: Some(vec![9, 9]),
        mask_address: None,
        mask_length: None,
    };
    assert_eq!(program_message(c.to_bytes()), "Password must be 4 bytes");
    let c = KillCommand {
        epc: vec![0x01, 0x02],
        password: Some(vec![9, 9, 9, 9]),
        mask_address: Some(1),
        mask_length: None,
    };
    assert_eq!(
        program_message(c.to_bytes()),
        "Mask address and length must be given together"
    );
}

#[test]
fn operation_commands_carry_codes_and_payloads() {
    let c = reader_information_command(7);
    assert_eq!(c.to_bytes().unwrap()[..3], [4, 7, 0x21]);
    let c = inventory_command(10);
    assert_eq!(c.to_bytes().unwrap(), vec![4, 10, 1, 171, 182]);
    let c = read_data_command(2, &read_cmd()).unwrap();
    assert_eq!(c.command, CommandType::ReadData);
    assert_eq!(c.data, read_cmd().to_bytes().unwrap());
    let w = WriteCommand {
        epc: vec![1, 2],
        location: MemoryLocation::EPC,
        start_address: 2,
        data: vec![3, 4],
        password: Some(vec![0, 0, 0, 1]),
        mask_address: None,
        mask_length: None,
    };
    let c = write_data_command(2, &w).unwrap();
    assert_eq!(c.command, CommandType::WriteData);
    assert_eq!(c.data, vec![1, 1, 1, 2, 1, 2, 3, 4, 0, 0, 0, 1]);
    let k = KillCommand {
        epc: vec![1],
        password: Some(vec![0; 4]),
        mask_address: None,
        mask_length: None,
    };
    assert_eq!(program_message(kill_command(2, &k)), "EPC length must be even");
}

#[test]
fn reader_information_decodes_fixed_record() {
    let info = ReaderInformation::from_bytes(&[3, 1, 0x0B, 0x04, 0x3E, 0x00, 0x1E, 0x0A]).unwrap();
    assert_eq!(
        info,
        ReaderInformation {
            version: vec![3, 1],
            reader_type: 0x0B,
            supported_protocols: 0x04,
            max_freq: 0x3E,
            min_freq: 0x00,
            power: 0x1E,
            scan_time: 0x0A,
        }
    );
    assert_eq!(
        program_message(ReaderInformation::from_bytes(&[1, 2, 3])),
        "Reader information must be 8 bytes"
    );
    let bytes = framed(0, 0x21, &[0x00, 3, 1, 0x0B, 0x04, 0x3E, 0x00, 0x1E, 0x0A]);
    let resp = Response::from_bytes(&bytes).unwrap();
    assert_eq!(reader_information_reply(&resp).unwrap(), info);
    let resp = Response {
        address: 0,
        command: 0x21,
        status: ResponseStatus::CommandNotSupported,
        data: vec![],
    };
    assert!(matches!(
        reader_information_reply(&resp),
        Err(Error::Protocol(ResponseStatus::CommandNotSupported))
    ));
}

#[test]
fn read_data_reply_returns_payload_or_error() {
    let resp = Response {
        address: 0,
        command: 2,
        status: ResponseStatus::OK,
        data: vec![1, 2, 3, 4],
    };
    assert_eq!(read_data_reply(resp).unwrap(), vec![1, 2, 3, 4]);
    let resp = Response {
        address: 0,
        command: 2,
        status: ResponseStatus::AccessPasswordError,
        data: vec![1, 2],
    };
    assert!(matches!(
        read_data_reply(resp),
        Err(Error::Protocol(ResponseStatus::AccessPasswordError))
    ));
}

#[test]
fn builders_accept_long_fields_and_leave_the_limit_to_the_codec() {
    let mut c = read_cmd();
    c.epc = vec![7; 244];
    let payload = c.to_bytes().unwrap();
    assert_eq!(payload.len(), 252);
    assert_eq!(payload[0], 122);
    assert_eq!(payload[245..252], [2, 3, 6, 0, 0, 0, 0][..]);
    assert_eq!(program_message(read_data_command(0, &c).unwrap().to_bytes()), "Payload too long");

    c.epc = vec![7; 510];
    assert_eq!(c.to_bytes().unwrap()[0], 255);

    let w = WriteCommand {
        epc: vec![1, 2],
        location: MemoryLocation::User,
        start_address: 0,
        data: vec![5; 250],
        password: None,
        mask_address: None,
        mask_length: None,
    };
    let payload = w.to_bytes().unwrap();
    assert_eq!(payload.len(), 260);
    assert_eq!(payload[0], 125);
    assert_eq!(payload[1], 1);
    assert_eq!(payload[256..260], [0, 0, 0, 0][..]);
    let mut w = w;
    w.data = vec![5; 512];
    assert_eq!(program_message(w.to_bytes()), "Data too long");

    let k = KillCommand {
        epc: vec![3; 248],
        password: Some(vec![1, 2, 3, 4]),
        mask_address: None,
        mask_length: None,
    };
    let payload = k.to_bytes().unwrap();
    assert_eq!(payload.len(), 253);
    assert_eq!(payload[0], 124);
    assert_eq!(payload[249..253], [1, 2, 3, 4][..]);
}

#[test]
fn kill_command_without_password_sends_zeros() {
    let k = KillCommand {
        epc: vec![0xAA, 0xBB],
        password: None,
        mask_address: None,
        mask_length: None,
    };
    assert_eq!(k.to_bytes().unwrap(), vec![1, 0xAA, 0xBB, 0, 0, 0, 0]);
}

#[test]
fn errors_convert_from_their_sources() {
    let e = Error::from(std::io::Error::new(std::io::ErrorKind::TimedOut, "timeout"));
    assert!(matches!(e, Error::Io(ref io) if io.kind() == std::io::ErrorKind::TimedOut));
    match Error::from("bad".to_string()) {
        Error::Program(m) => assert_eq!(m, "bad"),
        other => panic!("unexpected {:?}", other),
    }
    assert!(matches!(
        Error::from(ResponseStatus::NoTags),
        Error::Communication(ResponseStatus::NoTags)
    ));
    assert!(matches!(
        Error::from(ResponseStatus::KillPasswordZero),
        Error::Protocol(ResponseStatus::KillPasswordZero)
    ));
    match Error::from(ResponseStatus::IllegalCommand) {
        Error::Program(m) => assert_eq!(m, "Illegal command"),
        other => panic!("unexpected {:?}", other),
    }
}
