use core::convert::Infallible;

use r503::led::{Color, LedConfig};
use r503::enroll::{EnrollAction, EnrollEvent, EnrollFailure, Enrollment};
use r503::mock::SerialMock;
use r503::scan::{
    judge_scan, judge_template, scan_feedback, FingerScan, ScanAction, ScanEvent, ScanVerdict,
    TemplateVerdict,
};
use r503::packet::{verify_checksum, Package, PackageHeader, HEADER_MAGIC};
use r503::types::{Pid, ReadError, SlotTable, SystemParameters};
use r503::{Action, CharacterBuffer, Command, ConfirmationCode, Error, Event, Reply, R503};

/// Carries out `cmd` against the mock line, the way the asynchronous driver
/// does against a real one.
fn run(r503: &mut R503<SerialMock>, cmd: Command) -> Result<Reply, Error<Infallible>> {
    let mut action = r503.start::<Infallible>(cmd);
    loop {
        action = match action {
            Action::Send(bytes) => {
                r503.serial().write(&bytes);
                r503.step(Event::Sent)
            }
            Action::Receive(n) => {
                let mut buf = vec![0u8; n];
                let got = r503.serial().read(&mut buf);
                let ev = if got == n {
                    Event::Received(buf)
                } else {
                    Event::ReceiveFailed(ReadError::UnexpectedEof)
                };
                assert!(r503.accepts(&ev));
                r503.step(ev)
            }
            Action::Finish(result) => return result,
        };
    }
}

/// A reply frame from the sensor: Ack packet from the broadcast address.
fn reply(data: &[u8]) -> Vec<u8> {
    Package::new(Pid::Ack, 0xFFFF_FFFF, data).to_bytes()
}

fn ok_reply() -> Vec<u8> {
    reply(&[0x00])
}

#[test]
fn test_vfy_pwd() {
    let tx = &[
        0xEF, 0x01, 0xFF, 0xFF, 0xFF, 0xFF, 0x07, 0x00, 0x03, 0x00, 0x00, 0x0A,
    ];

    let serial = SerialMock::new(tx);

    let mut r503 = R503::new(serial, None, None);

    run(&mut r503, Command::VfyPwd).expect("Failed to verify password");

    let serial = r503.destroy();

    assert_eq!(
        &serial.rx,
        &[
            0xEF, 0x01, 0xFF, 0xFF, 0xFF, 0xFF, 0x01, 0x00, 0x07, 0x13, 0x00, 0x00, 0x00, 0x00,
            0x00, 0x1B
        ]
    );
}

#[test]
fn test_aura_led() {
    let tx = &[
        0xEF, 0x01, 0xFF, 0xFF, 0xFF, 0xFF, 0x07, 0x00, 0x03, 0x00, 0x00, 0x0A,
    ];

    let serial = SerialMock::new(tx);

    let mut r503 = R503::new(serial, None, None);
    r503.set_authenticated(true);

    run(
        &mut r503,
        Command::LedControl(LedConfig::breathing(Color::Red, 0xAA, 0x05)),
    )
    .expect("Failed to send led control command");

    let serial = r503.destroy();

    // Instruction: 0x35
    //
    // Payload:
    // Ctrl-code: 0x01 (breathing light)
    // Speed:     0xAA
    // Color Idx: 0x01 (red)
    // Count:     0x05
    assert_eq!(
        &serial.rx,
        &[
            0xEF, 0x01, 0xFF, 0xFF, 0xFF, 0xFF, 0x01, 0x00, 0x07, 0x35, 0x01, 0xAA, 0x01, 0x05,
            0x00, 0xee
        ]
    );
}

#[test]
fn test_slot_table_iter() {
    let mut bits = [0u8; 32];
    bits[0] = 0b0000_1001; // Slot 0, 3
    bits[1] = 0b1000_0001; // Slot 8, 15
    bits[31] = 0b1000_0000; // Slot 255
    let table = SlotTable::new(bits, 0);

    let numbers: Vec<_> = table.collect_slots();
    assert_eq!(numbers, [0, 3, 8, 15, 255]);

    let mut bits = [0u8; 32];
    bits[0] = 0b0000_1001; // Slot 256, 259
    bits[31] = 0b1000_0000; // Slot 511
    let table = SlotTable::new(bits, 1);

    let numbers: Vec<_> = table.collect_slots();
    assert_eq!(numbers, [256, 259, 511]);
}

#[test]
fn slot_table_next_steps_through_used_slots() {
    let mut bits = [0u8; 32];
    bits[2] = 0b0100_0000; // Slot 22
    bits[30] = 0b0000_0010; // Slot 241
    let mut table = SlotTable::new(bits, 255);
    assert_eq!(table.next(), Some(255 * 256 + 22));
    assert_eq!(table.next(), Some(255 * 256 + 241));
    assert_eq!(table.next(), None);
    assert_eq!(table.next(), None);
    let empty = SlotTable::new([0u8; 32], 3);
    assert_eq!(empty.collect_slots(), Vec::<u16>::new());
    let full = SlotTable::new([0xFFu8; 32], 0);
    assert_eq!(full.collect_slots(), (0u16..256).collect::<Vec<_>>());
}

#[test]
fn package_checksum_is_sum_of_pid_length_and_data() {
    let data = [0x13, 0x00, 0x00, 0x00, 0x00];
    let pckg = Package::new(Pid::Command, 0xFFFF_FFFF, &data);
    assert_eq!(pckg.pckg_header.length, 7);
    assert_eq!(pckg.pckg_header.header, HEADER_MAGIC);
    assert_eq!(pckg.checksum, 0x1B);
    assert_eq!(pckg.generate_checksum(), 0x1B);
    assert!(verify_checksum(&pckg));
    let tampered = Package {
        pckg_header: pckg.pckg_header,
        data: &data,
        checksum: 0x1C,
    };
    assert!(!verify_checksum(&tampered));
}

#[test]
fn package_checksum_wraps() {
    let data = vec![0xFFu8; 300];
    let pckg = Package::new(Pid::Data, 0x1234_5678, &data);
    // 2 + 302 + 300 * 255 = 76804, minus 65536
    assert_eq!(pckg.pckg_header.length, 302);
    assert_eq!(pckg.checksum, 11268);
    assert!(verify_checksum(&pckg));
}

#[test]
fn package_bytes_and_header_roundtrip() {
    let pckg = Package::new(Pid::Command, 0x1234_5678, &[0x36]);
    let bytes = pckg.to_bytes();
    assert_eq!(
        bytes,
        [0xEF, 0x01, 0x12, 0x34, 0x56, 0x78, 0x01, 0x00, 0x03, 0x36, 0x00, 0x3A]
    );
    let header = PackageHeader::parse(&bytes[..9]).unwrap();
    assert_eq!(header, pckg.pckg_header);
    assert_eq!(header.as_bytes(), bytes[..9].to_vec());
    assert_eq!(PackageHeader::parse(&bytes[..8]), None);
    let mut bad_pid = bytes[..9].to_vec();
    bad_pid[6] = 0x05;
    assert_eq!(PackageHeader::parse(&bad_pid), None);
}

#[test]
fn codes_roundtrip() {
    for b in 0u8..=255 {
        if let Some(code) = ConfirmationCode::from_code(b) {
            assert_eq!(code.code(), b);
        }
        if let Some(pid) = Pid::from_code(b) {
            assert_eq!(pid.code(), b);
        }
    }
    assert_eq!(ConfirmationCode::from_code(0x29), Some(ConfirmationCode::SensorAbnormal));
    assert_eq!(ConfirmationCode::from_code(0x04), None);
    assert!(!ConfirmationCode::Success.is_error());
    assert!(ConfirmationCode::NoFinger.is_error());
    assert_eq!(ConfirmationCode::WrongPwd.message(), "Wrong password");
    assert_eq!(ConfirmationCode::Success.message(), "Ok");
}

#[test]
fn led_payloads() {
    assert_eq!(
        LedConfig::flashing(Color::Blue, 180, 1).as_bytes(),
        [0x35, 0x02, 180, 0x02, 1]
    );
    assert_eq!(LedConfig::on(Color::Purple).as_bytes(), [0x35, 0x03, 0, 0x03, 0]);
    assert_eq!(LedConfig::off(Color::Red).as_bytes(), [0x35, 0x04, 0, 0x01, 0]);
    assert_eq!(
        LedConfig::transition_on(Color::Blue, 7).as_bytes(),
        [0x35, 0x05, 7, 0x02, 0]
    );
    assert_eq!(
        LedConfig::transition_off(Color::Red, 9).as_bytes(),
        [0x35, 0x06, 9, 0x01, 0]
    );
    assert_eq!(LedConfig::default().as_bytes(), [0x35, 0x04, 0, 0x01, 0]);
}

#[test]
fn unauthenticated_command_verifies_password_first() {
    let mut tx = ok_reply();
    tx.extend(ok_reply());
    let mut r503 = R503::new(SerialMock::new(&tx), Some(0xDEAD_BEEF), Some(0x1234_5678));
    let result = run(&mut r503, Command::GenImage);
    assert_eq!(result.unwrap(), Reply::Code(ConfirmationCode::Success));
    assert!(r503.is_authenticated());
    let rx = r503.destroy().rx;
    let mut expected = Package::new(Pid::Command, 0x1234_5678, &[0x13, 0xDE, 0xAD, 0xBE, 0xEF]).to_bytes();
    expected.extend(Package::new(Pid::Command, 0x1234_5678, &[0x01]).to_bytes());
    assert_eq!(rx, expected);
}

#[test]
fn wrong_password_stops_command() {
    let tx = reply(&[0x13]);
    let mut r503 = R503::new(SerialMock::new(&tx), None, None);
    let result = run(&mut r503, Command::CheckSensor);
    assert!(matches!(result, Err(Error::CommandErr(ConfirmationCode::WrongPwd))));
    assert!(!r503.is_authenticated());
    // only the password check was sent
    assert_eq!(r503.destroy().rx.len(), 16);
}

#[test]
fn check_sensor_reports_abnormal_status() {
    let tx = reply(&[0x29]);
    let mut r503 = R503::new(SerialMock::new(&tx), None, None);
    r503.set_authenticated(true);
    assert_eq!(
        run(&mut r503, Command::CheckSensor).unwrap(),
        Reply::Code(ConfirmationCode::SensorAbnormal)
    );
    let tx = reply(&[0x29]);
    let mut r503 = R503::new(SerialMock::new(&tx), None, None);
    r503.set_authenticated(true);
    assert!(matches!(
        run(&mut r503, Command::GenImage),
        Err(Error::CommandErr(ConfirmationCode::SensorAbnormal))
    ));
}

#[test]
fn gen_image_without_finger_fails() {
    let tx = reply(&[0x02]);
    let mut r503 = R503::new(SerialMock::new(&tx), None, None);
    r503.set_authenticated(true);
    assert!(matches!(
        run(&mut r503, Command::GenImageEx),
        Err(Error::CommandErr(ConfirmationCode::NoFinger))
    ));
}

fn parameter_reply() -> Vec<u8> {
    reply(&[
        0x00, // confirmation code
        0x00, 0x04, // status
        0x00, 0x09, // id
        0x00, 0xC8, // library size 200
        0x00, 0x03, // security level
        0xFF, 0xFF, 0xFF, 0xFF, // address
        0x00, 0x02, // packet size setting
        0x00, 0x06, // baud setting
    ])
}

#[test]
fn read_system_parameters_decodes_fields() {
    let tx = parameter_reply();
    let mut r503 = R503::new(SerialMock::new(&tx), None, None);
    r503.set_authenticated(true);
    let para = match run(&mut r503, Command::ReadSystemParameters).unwrap() {
        Reply::Parameters(p) => p,
        other => panic!("unexpected reply {other:?}"),
    };
    assert_eq!(para.get_library_size(), 200);
    assert_eq!(para.get_security_level(), 3);
    assert_eq!(para.get_device_address(), 0xFFFF_FFFF);
    assert_eq!(para.get_max_packet_size(), 128);
    assert_eq!(para.get_baud_rate(), 57600);
}

#[test]
fn max_packet_size_settings() {
    let mut raw = [0u8; 16];
    for (setting, size) in [(0u8, 32u16), (1, 64), (2, 128), (3, 256), (4, 0xFFFF)] {
        raw[13] = setting;
        assert_eq!(SystemParameters::from_suffix(&raw).unwrap().get_max_packet_size(), size);
    }
    assert!(SystemParameters::from_suffix(&raw[..15]).is_none());
}

#[test]
fn search_reads_parameters_once() {
    let mut tx = ok_reply();
    tx.extend(parameter_reply());
    tx.extend(reply(&[0x00, 0x00, 0x05, 0x00, 0x40]));
    tx.extend(reply(&[0x00, 0x00, 0x07, 0x00, 0x41]));
    let mut r503 = R503::new(SerialMock::new(&tx), None, None);
    let first = run(&mut r503, Command::SearchForMatch(CharacterBuffer::Buffer1, 0));
    assert_eq!(first.unwrap(), Reply::PageId(5));
    let second = run(&mut r503, Command::SearchForMatch(CharacterBuffer::Buffer2, 3));
    assert_eq!(second.unwrap(), Reply::PageId(7));
    let rx = r503.destroy().rx;
    let mut expected = Package::new(Pid::Command, 0xFFFF_FFFF, &[0x13, 0, 0, 0, 0]).to_bytes();
    expected.extend(Package::new(Pid::Command, 0xFFFF_FFFF, &[0x0F]).to_bytes());
    expected.extend(Package::new(Pid::Command, 0xFFFF_FFFF, &[0x04, 0x01, 0x00, 0x00, 0x00, 0xC8]).to_bytes());
    expected.extend(Package::new(Pid::Command, 0xFFFF_FFFF, &[0x04, 0x02, 0x00, 0x03, 0x00, 0xC8]).to_bytes());
    assert_eq!(rx, expected);
}

#[test]
fn search_failure_is_an_error() {
    let tx = reply(&[0x09, 0x00, 0x00, 0x00, 0x00]);
    let mut r503 = R503::new(SerialMock::new(&tx), None, None);
    r503.set_authenticated(true);
    // parameters unknown: the parameter read comes first and gets the search reply
    assert!(matches!(
        run(&mut r503, Command::SearchForMatch(CharacterBuffer::Buffer1, 0)),
        Err(Error::CommandErr(ConfirmationCode::SearchFailed))
    ));
}

#[test]
fn library_count_and_its_errors() {
    let tx = reply(&[0x00, 0x01, 0x02]);
    let mut r503 = R503::new(SerialMock::new(&tx), None, None);
    r503.set_authenticated(true);
    assert_eq!(run(&mut r503, Command::GetLibraryCount).unwrap(), Reply::Count(0x0102));

    let tx = reply(&[0x00, 0x01]);
    let mut r503 = R503::new(SerialMock::new(&tx), None, None);
    r503.set_authenticated(true);
    assert!(matches!(run(&mut r503, Command::GetLibraryCount), Err(Error::InvalidContent)));
}

#[test]
fn unit_commands_send_their_payloads() {
    let cases: [(Command, Vec<u8>); 8] = [
        (Command::GenImage, vec![0x01]),
        (Command::GenImageEx, vec![0x28]),
        (Command::EmptyLibrary, vec![0x0D]),
        (Command::DeleteTemplates(0x0102, 1), vec![0x0C, 0x01, 0x02, 0x00, 0x01]),
        (Command::Img2Tz(CharacterBuffer::Buffer2), vec![0x02, 0x02]),
        (Command::GenTemplate, vec![0x05]),
        (Command::StoreTemplate(CharacterBuffer::Buffer1, 0x0304), vec![0x06, 0x01, 0x03, 0x04]),
        (Command::CheckSensor, vec![0x36]),
    ];
    for (cmd, payload) in cases {
        let tx = ok_reply();
        let mut r503 = R503::new(SerialMock::new(&tx), None, None);
        r503.set_authenticated(true);
        assert!(run(&mut r503, cmd).is_ok());
        assert_eq!(
            r503.destroy().rx,
            Package::new(Pid::Command, 0xFFFF_FFFF, &payload).to_bytes()
        );
    }
}

#[test]
fn invalid_content_code() {
    let tx = reply(&[0x04]);
    let mut r503 = R503::new(SerialMock::new(&tx), None, None);
    r503.set_authenticated(true);
    assert!(matches!(run(&mut r503, Command::EmptyLibrary), Err(Error::InvalidContent)));
}

#[test]
fn header_errors() {
    // unknown package identifier
    let mut tx = ok_reply();
    tx[6] = 0x03;
    let mut r503 = R503::new(SerialMock::new(&tx), None, None);
    r503.set_authenticated(true);
    assert!(matches!(run(&mut r503, Command::GenTemplate), Err(Error::InvalidPid)));

    // wrong magic number
    let mut tx = ok_reply();
    tx[0] = 0xEE;
    let mut r503 = R503::new(SerialMock::new(&tx), None, None);
    r503.set_authenticated(true);
    assert!(matches!(run(&mut r503, Command::GenTemplate), Err(Error::InvalidHeader)));

    // payload larger than the reply buffer
    let tx = reply(&[0u8; 13]);
    let mut r503 = R503::new(SerialMock::new(&tx), None, None);
    r503.set_authenticated(true);
    assert!(matches!(run(&mut r503, Command::GenTemplate), Err(Error::BufTooSmall)));
}

#[test]
fn checksum_mismatch() {
    let mut tx = ok_reply();
    let last = tx.len() - 1;
    tx[last] ^= 1;
    let mut r503 = R503::new(SerialMock::new(&tx), None, None);
    r503.set_authenticated(true);
    assert!(matches!(run(&mut r503, Command::GenTemplate), Err(Error::Checksum)));
}

#[test]
fn short_line_is_a_read_error() {
    let tx = ok_reply();
    let mut r503 = R503::new(SerialMock::new(&tx[..10]), None, None);
    r503.set_authenticated(true);
    assert!(matches!(
        run(&mut r503, Command::GenTemplate),
        Err(Error::ReadErr(ReadError::UnexpectedEof))
    ));
}

#[test]
fn write_failure_ends_command() {
    let tx = ok_reply();
    let mut r503 = R503::new(SerialMock::new(&tx), None, None);
    r503.set_authenticated(true);
    let action = r503.start::<u8>(Command::GenTemplate);
    assert!(matches!(action, Action::Send(_)));
    let ev = Event::SendFailed(7u8);
    assert!(r503.accepts(&ev));
    assert!(matches!(r503.step(ev), Action::Finish(Err(Error::WriteErr(7)))));
    // the exchange is over: nothing more is accepted
    assert!(!r503.accepts(&Event::<u8>::Sent));
}

#[test]
fn too_short_length_is_an_invalid_header() {
    let tx = [0xEF, 0x01, 0xFF, 0xFF, 0xFF, 0xFF, 0x07, 0x00, 0x01];
    let mut r503 = R503::new(SerialMock::new(&tx), None, None);
    r503.set_authenticated(true);
    assert!(matches!(run(&mut r503, Command::GenTemplate), Err(Error::InvalidHeader)));
}

#[test]
fn empty_reply_is_invalid_content() {
    let tx = [0xEF, 0x01, 0xFF, 0xFF, 0xFF, 0xFF, 0x07, 0x00, 0x02, 0x00, 0x09];
    let mut r503 = R503::new(SerialMock::new(&tx), None, None);
    assert!(matches!(run(&mut r503, Command::VfyPwd), Err(Error::InvalidContent)));
    assert!(!r503.is_authenticated());
    // a search reply without payload is invalid too
    let tx = [0xEF, 0x01, 0xFF, 0xFF, 0xFF, 0xFF, 0x07, 0x00, 0x02, 0x00, 0x09];
    let mut r503 = R503::new(SerialMock::new(&tx), None, None);
    r503.set_authenticated(true);
    let _ = r503.start::<u8>(Command::GetLibraryCount);
    r503.step::<u8>(Event::Sent);
    // a read of the wrong size is not taken
    assert!(!r503.accepts(&Event::<u8>::Received(vec![0xEF, 0x01])));
}

#[test]
fn mock_reads_what_it_holds() {
    let mut mock = SerialMock::new(&[1, 2, 3]);
    let mut buf = [9u8; 2];
    assert_eq!(mock.read(&mut buf), 2);
    assert_eq!(buf, [1, 2]);
    let mut buf = [9u8; 4];
    assert_eq!(mock.read(&mut buf), 1);
    assert_eq!(buf, [3, 9, 9, 9]);
    assert_eq!(mock.write(&[4, 5]), 2);
    mock.flush();
    assert_eq!(mock.rx, [4, 5]);
    assert_eq!(mock.tx.len(), 0);
}

#[test]
fn scan_verdicts_and_feedback() {
    let ok: Result<ConfirmationCode, Error<u8>> = Ok(ConfirmationCode::Success);
    assert_eq!(judge_scan(&ok), ScanVerdict::Detected);
    let odd: Result<ConfirmationCode, Error<u8>> = Ok(ConfirmationCode::SensorAbnormal);
    assert_eq!(judge_scan(&odd), ScanVerdict::Unexpected(ConfirmationCode::SensorAbnormal));
    let none: Result<ConfirmationCode, Error<u8>> = Err(Error::CommandErr(ConfirmationCode::NoFinger));
    assert_eq!(judge_scan(&none), ScanVerdict::KeepTrying);
    let poor: Result<ConfirmationCode, Error<u8>> =
        Err(Error::CommandErr(ConfirmationCode::ErrTooLittleData));
    assert_eq!(judge_scan(&poor), ScanVerdict::KeepTrying);
    let failed: Result<ConfirmationCode, Error<u8>> = Err(Error::CommandErr(ConfirmationCode::EnrollErr));
    assert_eq!(judge_scan(&failed), ScanVerdict::CollectionFailed);
    let broken: Result<ConfirmationCode, Error<u8>> = Err(Error::Checksum);
    assert_eq!(judge_scan(&broken), ScanVerdict::Failed);

    assert!(scan_feedback(ScanVerdict::KeepTrying).is_none());
    assert_eq!(
        scan_feedback(ScanVerdict::Detected).unwrap().as_bytes(),
        [0x35, 0x02, 180, 0x02, 1]
    );
    assert_eq!(
        scan_feedback(ScanVerdict::Failed).unwrap().as_bytes(),
        [0x35, 0x02, 20, 0x01, 5]
    );
}

#[test]
fn template_verdicts() {
    let ok: Result<ConfirmationCode, Error<u8>> = Ok(ConfirmationCode::Success);
    assert_eq!(judge_template(&ok), TemplateVerdict::Combined);
    let mismatch: Result<ConfirmationCode, Error<u8>> =
        Err(Error::CommandErr(ConfirmationCode::FileCombinationFailed));
    assert_eq!(judge_template(&mismatch), TemplateVerdict::PresentAgain);
    let other: Result<ConfirmationCode, Error<u8>> = Err(Error::WriteErr(1));
    assert_eq!(judge_template(&other), TemplateVerdict::Failed);
}

#[test]
fn system_parameters_text() {
    let mut raw = [0u8; 16];
    raw[4] = 0x00;
    raw[5] = 0xC8; // library size 200
    raw[7] = 0x03; // security level 3
    raw[10] = 0x12;
    raw[11] = 0x34; // address 0x1234
    raw[13] = 0x02; // 128 byte packets
    raw[15] = 0x06; // 57600 baud
    let para = SystemParameters::from_suffix(&raw).unwrap();
    assert_eq!(
        para.to_text(false),
        "max. library size: 200, security level: 3, max. packet size: 128, device address: 00001234, configured baud: 57600"
    );
    let expected = format!(
        "System Parameters:\n  max. library size: {}\n  security level: {}\n  max. packet size: {}\n  device address: {:#08X}\n  configured baud: {}\n",
        200, 3, 128, 0x1234u32, 57600
    );
    assert_eq!(para.to_text(true), expected);
    raw[8] = 0xFF;
    raw[9] = 0xAB;
    let para = SystemParameters::from_suffix(&raw).unwrap();
    assert!(para.to_text(false).contains(&format!("device address: {:08X},", 0xFFAB1234u32)));
    assert!(para.to_text(true).contains(&format!("device address: {:#08X}\n", 0xFFAB1234u32)));
}

#[test]
fn error_messages() {
    assert_eq!(Error::<u8>::BufTooSmall.message(""), "Buffer to small");
    assert_eq!(Error::<u8>::InvalidPid.message(""), "Unexpected package identifier");
    assert_eq!(Error::<u8>::InvalidHeader.message(""), "Invalid header received");
    assert_eq!(Error::<u8>::Checksum.message(""), "Checksum mismatch");
    assert_eq!(Error::<u8>::InvalidContent.message(""), "Unexpected data received");
    assert_eq!(Error::<u8>::InvalidParameter.message(""), "Invalid parameter");
    assert_eq!(
        Error::<u8>::CommandErr(ConfirmationCode::WrongPwd).message(""),
        "Sensor returned error: Wrong password"
    );
    assert_eq!(
        Error::<u8>::ReadErr(ReadError::UnexpectedEof).message(""),
        "UART read error: unexpected EOF"
    );
    assert_eq!(
        Error::<u8>::ReadErr(ReadError::Other(1)).message("Interrupted"),
        "UART read error: Interrupted"
    );
    assert_eq!(Error::WriteErr(3u8).message("Other"), "UART write error: Other");
}

#[test]
fn errors_from_line_failures() {
    let e: Error<u8> = Error::from(ReadError::<u8>::Other(4));
    assert!(matches!(e, Error::ReadErr(ReadError::Other(4))));
    let e: Error<u8> = Error::from(5u8);
    assert!(matches!(e, Error::WriteErr(5)));
}

fn ok_code() -> Result<ConfirmationCode, Error<u8>> {
    Ok(ConfirmationCode::Success)
}

#[test]
fn enrollment_of_three_images() {
    let mut e = Enrollment::new(7, 3);
    assert!(matches!(e.start::<u8>(), EnrollAction::PresentFinger));
    assert!(matches!(
        e.step(EnrollEvent::<u8>::FingerPresented),
        EnrollAction::Run(Command::Img2Tz(CharacterBuffer::Buffer1))
    ));
    assert!(matches!(e.step(EnrollEvent::Completed(ok_code())), EnrollAction::ReleaseFinger));
    for round in 2..=3u16 {
        assert_eq!(e.round(), round);
        assert!(matches!(e.step(EnrollEvent::<u8>::FingerReleased), EnrollAction::PresentFinger));
        assert!(matches!(
            e.step(EnrollEvent::<u8>::FingerPresented),
            EnrollAction::Run(Command::Img2Tz(CharacterBuffer::Buffer2))
        ));
        assert!(matches!(
            e.step(EnrollEvent::Completed(ok_code())),
            EnrollAction::Run(Command::GenTemplate)
        ));
        // the first combination of each round fails on a finger mismatch
        let mismatch: Result<ConfirmationCode, Error<u8>> =
            Err(Error::CommandErr(ConfirmationCode::FileCombinationFailed));
        assert!(matches!(e.step(EnrollEvent::Completed(mismatch)), EnrollAction::RetryRound));
        assert_eq!(e.round(), round);
        assert!(matches!(e.step(EnrollEvent::<u8>::FingerReleased), EnrollAction::PresentFinger));
        e.step(EnrollEvent::<u8>::FingerPresented);
        e.step(EnrollEvent::Completed(ok_code()));
        let next = e.step(EnrollEvent::Completed(ok_code()));
        if round < 3 {
            assert!(matches!(next, EnrollAction::ReleaseFinger));
        } else {
            assert!(matches!(
                next,
                EnrollAction::Run(Command::StoreTemplate(CharacterBuffer::Buffer1, 7))
            ));
        }
    }
    assert!(matches!(e.step(EnrollEvent::Completed(ok_code())), EnrollAction::Done));
    assert!(!e.accepts(&EnrollEvent::<u8>::FingerReleased));
}

#[test]
fn enrollment_of_one_image_stores_at_once() {
    let mut e = Enrollment::new(1, 1);
    e.start::<u8>();
    e.step(EnrollEvent::<u8>::FingerPresented);
    assert!(matches!(
        e.step(EnrollEvent::Completed(ok_code())),
        EnrollAction::Run(Command::StoreTemplate(CharacterBuffer::Buffer1, 1))
    ));
}

#[test]
fn enrollment_failures() {
    let mut e = Enrollment::new(1, 2);
    e.start::<u8>();
    assert!(matches!(
        e.step(EnrollEvent::<u8>::FingerMissed),
        EnrollAction::Abort(EnrollFailure::FingerNotCollected, None)
    ));

    let mut e = Enrollment::new(1, 2);
    e.start::<u8>();
    e.step(EnrollEvent::<u8>::FingerPresented);
    assert!(matches!(
        e.step(EnrollEvent::Completed(Err(Error::<u8>::Checksum))),
        EnrollAction::Abort(EnrollFailure::FirstFeatureFile, Some(Error::Checksum))
    ));

    let mut e = Enrollment::new(1, 2);
    e.start::<u8>();
    e.step(EnrollEvent::<u8>::FingerPresented);
    e.step(EnrollEvent::Completed(ok_code()));
    e.step(EnrollEvent::<u8>::FingerReleased);
    e.step(EnrollEvent::<u8>::FingerPresented);
    e.step(EnrollEvent::Completed(ok_code()));
    assert!(matches!(
        e.step(EnrollEvent::Completed(Err(Error::<u8>::WriteErr(2)))),
        EnrollAction::Abort(EnrollFailure::TemplateGeneration, Some(Error::WriteErr(2)))
    ));
}

#[test]
fn slot_table_next_after_collect_semantics() {
    let mut bits = [0u8; 32];
    bits[5] = 0b0001_0001; // Slots 40, 44
    let mut table = SlotTable::new(bits, 2);
    assert_eq!(table.next(), Some(512 + 40));
    assert_eq!(table.collect_slots(), [512 + 44]);
}

fn payload(action: &ScanAction<u8>) -> Vec<u8> {
    match action {
        ScanAction::Signal(config) => config.as_bytes(),
        other => panic!("expected a signal, got {other:?}"),
    }
}

#[test]
fn finger_scan_detects_after_retries() {
    let mut scan = FingerScan::new();
    let a = scan.start::<u8>();
    assert_eq!(payload(&a), [0x35, 0x01, 100, 0x03, 255]);
    assert!(matches!(scan.step(ScanEvent::<u8>::Signalled), ScanAction::CheckClock));
    assert!(matches!(scan.step(ScanEvent::<u8>::ClockRead(false)), ScanAction::Capture));
    let none: Result<ConfirmationCode, Error<u8>> = Err(Error::CommandErr(ConfirmationCode::NoFinger));
    assert!(matches!(scan.step(ScanEvent::Captured(none)), ScanAction::Pause));
    assert!(matches!(scan.step(ScanEvent::<u8>::ClockRead(false)), ScanAction::Capture));
    let a = scan.step(ScanEvent::Captured(ok_code()));
    assert_eq!(payload(&a), [0x35, 0x02, 180, 0x02, 1]);
    assert!(matches!(scan.step(ScanEvent::<u8>::Signalled), ScanAction::Finish(Ok(()))));
    assert!(!scan.accepts(&ScanEvent::<u8>::Signalled));
}

#[test]
fn finger_scan_failures_and_timeout() {
    let mut scan = FingerScan::new();
    scan.start::<u8>();
    scan.step(ScanEvent::<u8>::Signalled);
    assert!(matches!(scan.step(ScanEvent::<u8>::ClockRead(true)), ScanAction::Finish(Ok(()))));

    let mut scan = FingerScan::new();
    scan.start::<u8>();
    scan.step(ScanEvent::<u8>::Signalled);
    scan.step(ScanEvent::<u8>::ClockRead(false));
    let failed: Result<ConfirmationCode, Error<u8>> = Err(Error::CommandErr(ConfirmationCode::EnrollErr));
    let a = scan.step(ScanEvent::Captured(failed));
    assert_eq!(payload(&a), [0x35, 0x02, 20, 0x01, 5]);
    assert!(matches!(
        scan.step(ScanEvent::<u8>::Signalled),
        ScanAction::Finish(Err(ScanVerdict::CollectionFailed))
    ));

    let mut scan = FingerScan::new();
    scan.start::<u8>();
    assert!(matches!(
        scan.step(ScanEvent::<u8>::SignalFailed(Error::Checksum)),
        ScanAction::Abort(Error::Checksum)
    ));
}
