use sonicmix::sonic_pi::{check_connection, run_code, stop, SONIC_PI_GUI, SONIC_PI_SERVER};

#[test]
fn run_code_is_encoded_as_an_osc_message() {
    let mut expected: Vec<u8> = Vec::new();
    expected.extend_from_slice(b"/run-code\0\0\0");
    expected.extend_from_slice(b",ss\0");
    expected.extend_from_slice(b"SONICMIX\0\0\0\0");
    expected.extend_from_slice(b"play 60\0");
    assert_eq!(run_code("play 60"), Ok(expected));
}

#[test]
fn code_is_carried_as_utf8() {
    let mut expected: Vec<u8> = Vec::new();
    expected.extend_from_slice(b"/run-code\0\0\0");
    expected.extend_from_slice(b",ss\0");
    expected.extend_from_slice(b"SONICMIX\0\0\0\0");
    expected.extend_from_slice("# caf\u{e9}".as_bytes());
    expected.extend_from_slice(b"\0");
    assert_eq!(run_code("# caf\u{e9}"), Ok(expected));
}

#[test]
fn empty_code_is_still_a_message() {
    let mut expected: Vec<u8> = Vec::new();
    expected.extend_from_slice(b"/run-code\0\0\0");
    expected.extend_from_slice(b",ss\0");
    expected.extend_from_slice(b"SONICMIX\0\0\0\0");
    expected.extend_from_slice(b"\0\0\0\0");
    assert_eq!(run_code(""), Ok(expected));
}

#[test]
fn stop_is_encoded_as_an_osc_message() {
    let mut expected: Vec<u8> = Vec::new();
    expected.extend_from_slice(b"/stop-all-jobs\0\0");
    expected.extend_from_slice(b",s\0\0");
    expected.extend_from_slice(b"SONICMIX\0\0\0\0");
    assert_eq!(stop(), Ok(expected));
}

#[test]
fn ping_is_encoded_as_an_osc_message() {
    let mut expected: Vec<u8> = Vec::new();
    expected.extend_from_slice(b"/ping\0\0\0");
    expected.extend_from_slice(b",s\0\0");
    expected.extend_from_slice(b"SONICMIX\0\0\0\0");
    assert_eq!(check_connection(), Ok(expected));
}

#[test]
fn datagrams_decode_to_the_messages_they_stand_for() {
    let bytes = run_code("sample :bd_haus").unwrap();
    let (rest, packet) = rosc::decoder::decode_udp(&bytes).unwrap();
    assert!(rest.is_empty());
    assert_eq!(
        packet,
        rosc::OscPacket::Message(rosc::OscMessage {
            addr: "/run-code".to_string(),
            args: vec![
                rosc::OscType::String("SONICMIX".to_string()),
                rosc::OscType::String("sample :bd_haus".to_string()),
            ],
        })
    );
}

#[test]
fn sonic_pi_listens_on_the_loopback() {
    assert_eq!(SONIC_PI_SERVER, "127.0.0.1:4560");
    assert_eq!(SONIC_PI_GUI, "127.0.0.1:4559");
}
