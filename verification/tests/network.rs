use screencast::controller::receiver_controller::registration_outcome;
use screencast::socket::address::{parse_port, registration_request, split_endpoint, RegistrationError};
use screencast::socket::codec::{Action, RegistrationMessage, SerializableImage};
use screencast::socket::packet::{fragment_frame, FrameAssembler, CHUNK_SIZE, MAX_PAYLOAD};
use screencast::socket::stream::{decode_assembled, frame_datagrams};
use screencast::socket::viewers::{caster_endpoint, receiver_endpoints, ReceiverRegistry, CASTER_PORT, RECEIVER_PORT};

#[test]
fn payload_sizes() {
    assert_eq!(MAX_PAYLOAD, 1472);
    assert_eq!(CHUNK_SIZE, 1464);
}

#[test]
fn image_encoding_is_bincode_layout() {
    let img = SerializableImage::new(2, 1, vec![1, 2, 3, 4, 5, 6, 7, 8]);
    let bytes = img.to_bytes();
    let mut expected = vec![2, 0, 0, 0, 1, 0, 0, 0, 8, 0, 0, 0, 0, 0, 0, 0];
    expected.extend_from_slice(&[1, 2, 3, 4, 5, 6, 7, 8]);
    assert_eq!(bytes, expected);
}

#[test]
fn image_roundtrip() {
    let img = SerializableImage::new(3, 7, vec![42; 84]);
    let back = SerializableImage::from_bytes(&img.to_bytes()).unwrap();
    assert_eq!(back.width(), 3);
    assert_eq!(back.height(), 7);
    assert_eq!(back.data(), img.data());
}

#[test]
fn image_decoding_rejects_short_input() {
    assert!(SerializableImage::from_bytes(&[1, 0, 0, 0]).is_none());
    // Announces 8 data bytes but carries only 2.
    assert!(SerializableImage::from_bytes(&[1, 0, 0, 0, 1, 0, 0, 0, 8, 0, 0, 0, 0, 0, 0, 0, 1, 2]).is_none());
}

#[test]
fn image_decoding_ignores_trailing_bytes() {
    let decoded = SerializableImage::from_bytes(&[1, 0, 0, 0, 1, 0, 0, 0, 1, 0, 0, 0, 0, 0, 0, 0, 9, 77, 77]).unwrap();
    assert_eq!(decoded.data(), &vec![9]);
}

#[test]
fn registration_encoding_is_bincode_layout() {
    let m = RegistrationMessage::new("127.0.0.1".to_string(), 8080, Action::Register);
    let mut expected = vec![9, 0, 0, 0, 0, 0, 0, 0];
    expected.extend_from_slice(b"127.0.0.1");
    expected.extend_from_slice(&[0x90, 0x1f, 0, 0, 0, 0]);
    assert_eq!(m.to_bytes(), expected);
    let d = RegistrationMessage::new("a".to_string(), 1, Action::Disconnect);
    assert_eq!(d.to_bytes(), vec![1, 0, 0, 0, 0, 0, 0, 0, b'a', 1, 0, 1, 0, 0, 0]);
}

#[test]
fn registration_roundtrip() {
    let m = RegistrationMessage::new("192.168.1.20".to_string(), 40000, Action::Disconnect);
    let back = RegistrationMessage::from_bytes(&m.to_bytes()).unwrap();
    assert_eq!(back.ip, "192.168.1.20");
    assert_eq!(back.port, 40000);
    assert_eq!(back.action, Action::Disconnect);
}

#[test]
fn registration_decoding_rejects_unknown_variant() {
    let bytes = vec![1, 0, 0, 0, 0, 0, 0, 0, b'a', 1, 0, 2, 0, 0, 0];
    assert!(RegistrationMessage::from_bytes(&bytes).is_none());
    assert!(RegistrationMessage::from_bytes(&[1, 0, 0]).is_none());
}

#[test]
fn fragments_carry_index_count_and_chunk() {
    let data: Vec<u8> = (0..3000u32).map(|i| (i % 251) as u8).collect();
    let packets = fragment_frame(&data);
    assert_eq!(packets.len(), 3);
    assert_eq!(&packets[0][0..8], &[0, 0, 0, 0, 0, 0, 0, 3]);
    assert_eq!(&packets[2][0..8], &[0, 0, 0, 2, 0, 0, 0, 3]);
    assert_eq!(packets[0].len(), 8 + 1464);
    assert_eq!(packets[2].len(), 8 + 3000 - 2 * 1464);
    assert_eq!(&packets[1][8..], &data[1464..2928]);
}

#[test]
fn empty_frame_has_no_fragments() {
    assert_eq!(fragment_frame(&Vec::new()).len(), 0);
}

#[test]
fn fragments_reassemble_in_any_order() {
    let data: Vec<u8> = (0..5000u32).map(|i| (i * 7 % 256) as u8).collect();
    let packets = fragment_frame(&data);
    let mut assembler = FrameAssembler::new();
    assert!(!assembler.is_complete());
    for p in packets.iter().rev() {
        assembler.add_packet(p);
    }
    assert!(assembler.is_complete());
    assert!(assembler.has_all_packets());
    assert_eq!(assembler.assemble(), data);
}

#[test]
fn repeated_fragments_do_not_disturb_reassembly() {
    let data: Vec<u8> = (0..4000u32).map(|i| (i % 13) as u8).collect();
    let packets = fragment_frame(&data);
    assert_eq!(packets.len(), 3);
    let mut assembler = FrameAssembler::new();
    for i in [2usize, 0, 2, 0] {
        assembler.add_packet(&packets[i]);
        assert!(!assembler.is_complete());
    }
    assembler.add_packet(&packets[1]);
    assert!(assembler.is_complete());
    assert!(assembler.has_all_packets());
    assert_eq!(assembler.assemble(), data);
}

#[test]
fn missing_fragment_is_detected() {
    let data = vec![1u8; 4000];
    let packets = fragment_frame(&data);
    let mut assembler = FrameAssembler::new();
    assembler.add_packet(&packets[0]);
    assembler.add_packet(&packets[2]);
    assert!(!assembler.is_complete());
    assert!(!assembler.has_all_packets());
}

#[test]
fn frame_travels_to_receiver() {
    let img = SerializableImage::new(20, 30, (0..2400u32).map(|i| i as u8).collect());
    let mut assembler = FrameAssembler::new();
    for p in frame_datagrams(&img) {
        assembler.add_packet(&p);
    }
    assert!(assembler.is_complete() && assembler.has_all_packets());
    let got = decode_assembled(assembler).unwrap();
    assert_eq!((got.width(), got.height()), (20, 30));
    assert_eq!(got.data(), img.data());
}

#[test]
fn ports_parse_like_u16_from_str() {
    assert_eq!(parse_port("80"), Some(80));
    assert_eq!(parse_port("+80"), Some(80));
    assert_eq!(parse_port("007"), Some(7));
    assert_eq!(parse_port("65535"), Some(65535));
    assert_eq!(parse_port("65536"), None);
    assert_eq!(parse_port("99999999999"), None);
    assert_eq!(parse_port(""), None);
    assert_eq!(parse_port("+"), None);
    assert_eq!(parse_port("-1"), None);
    assert_eq!(parse_port("8a"), None);
}

#[test]
fn endpoint_splits_at_the_first_colon() {
    let (host, port) = split_endpoint("10.0.0.2:5000").unwrap();
    assert_eq!(host, "10.0.0.2");
    assert_eq!(port, 5000);
    let (host, port) = split_endpoint("h:12:34").unwrap();
    assert_eq!(host, "h");
    assert_eq!(port, 12);
}

#[test]
fn endpoint_errors() {
    assert!(matches!(split_endpoint("10.0.0.2"), Err(RegistrationError::InvalidIp)));
    assert!(matches!(split_endpoint("10.0.0.2:"), Err(RegistrationError::PortParsingError)));
    assert!(matches!(split_endpoint("10.0.0.2:http"), Err(RegistrationError::PortParsingError)));
}

#[test]
fn registration_request_carries_action() {
    let m = registration_request("1.2.3.4:9000", Action::Disconnect).unwrap();
    assert_eq!(m.ip, "1.2.3.4");
    assert_eq!(m.port, 9000);
    assert_eq!(m.action, Action::Disconnect);
    assert!(matches!(registration_request("nope", Action::Register), Err(RegistrationError::InvalidIp)));
}

#[test]
fn audience_joins_and_leaves() {
    let mut reg = ReceiverRegistry::new();
    assert_eq!(reg.len(), 0);
    let a = RegistrationMessage::new("10.0.0.1".to_string(), 5000, Action::Register);
    let b = RegistrationMessage::new("10.0.0.2".to_string(), 6000, Action::Register);
    assert_eq!(reg.apply(&a), 1);
    assert_eq!(reg.apply(&b), 2);
    assert_eq!(reg.apply(&a), 3);
    assert_eq!(reg.address(0), "10.0.0.1:5000");
    assert_eq!(reg.address(1), "10.0.0.2:6000");
    let leave = RegistrationMessage::new("10.0.0.1".to_string(), 5000, Action::Disconnect);
    assert_eq!(reg.apply(&leave), 1);
    assert_eq!(reg.address(0), "10.0.0.2:6000");
}

#[test]
fn stored_address_splits_back() {
    let mut reg = ReceiverRegistry::new();
    reg.apply(&RegistrationMessage::new("192.168.0.7".to_string(), 7880, Action::Register));
    let (host, port) = split_endpoint(reg.address(0)).unwrap();
    assert_eq!(host, "192.168.0.7");
    assert_eq!(port, 7880);
}

#[test]
fn join_then_leave_restores_audience() {
    let mut reg = ReceiverRegistry::new();
    reg.apply(&RegistrationMessage::new("a".to_string(), 1, Action::Register));
    reg.apply(&RegistrationMessage::new("b".to_string(), 2, Action::Register));
    reg.apply(&RegistrationMessage::new("a".to_string(), 1, Action::Disconnect));
    assert_eq!(reg.len(), 1);
    assert_eq!(reg.address(0), "b:2");
}

#[test]
fn unknown_departure_changes_nothing() {
    let mut reg = ReceiverRegistry::new();
    reg.apply(&RegistrationMessage::new("x".to_string(), 1, Action::Register));
    assert_eq!(reg.apply(&RegistrationMessage::new("x".to_string(), 2, Action::Disconnect)), 1);
    assert_eq!(reg.address(0), "x:1");
}

#[test]
fn registration_outcome_texts() {
    assert_eq!(registration_outcome(Ok(())), Ok("Registrazione completata con successo!".to_string()));
    assert_eq!(
        registration_outcome(Err(RegistrationError::InvalidIp)),
        Err("L'indirizzo IP inserito non è valido.".to_string())
    );
    assert_eq!(
        registration_outcome(Err(RegistrationError::PortParsingError)),
        Err("La porta specificata non è valida.".to_string())
    );
    assert_eq!(
        registration_outcome(Err(RegistrationError::SocketNotInitialized)),
        Err("La socket non è stata inizializzata correttamente.".to_string())
    );
    assert_eq!(
        registration_outcome(Err(RegistrationError::ConnectionReset)),
        Err("Connessione interrotta dal caster.".to_string())
    );
    assert_eq!(
        registration_outcome(Err(RegistrationError::NetworkUnreachable)),
        Err("La rete non è raggiungibile. Controlla la tua connessione.".to_string())
    );
    assert_eq!(
        registration_outcome(Err(RegistrationError::UnknownError("boom".to_string()))),
        Err("boom".to_string())
    );
}

#[test]
fn socket_addresses_use_the_fixed_ports() {
    assert_eq!(CASTER_PORT, 7879);
    assert_eq!(RECEIVER_PORT, 7880);
    assert_eq!(caster_endpoint("10.0.0.5"), "10.0.0.5:7879");
    let (local, caster) = receiver_endpoints("10.0.0.6", "10.0.0.5");
    assert_eq!(local, "10.0.0.6:7880");
    assert_eq!(caster, "10.0.0.5:7879");
    let m = registration_request(&local, Action::Register).unwrap();
    assert_eq!(m.ip, "10.0.0.6");
    assert_eq!(m.port, 7880);
}
