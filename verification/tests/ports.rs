use cargo_avr::board::config::{
    find_port, has_port_id, BoardConfig, BoardPortID, BoardUSBInfo, DetectedPort, PortError,
};
use cargo_avr::board::get_board_from_name;

fn usb(name: &str, vid: u16, pid: u16) -> DetectedPort {
    DetectedPort { port_name: name.to_string(), usb_id: Some(BoardPortID { vid, pid }) }
}

fn plain(name: &str) -> DetectedPort {
    DetectedPort { port_name: name.to_string(), usb_id: None }
}

fn board_with(ids: Vec<BoardPortID>) -> BoardConfig {
    BoardConfig { usb_info: Some(BoardUSBInfo::PortIds(ids)), ..BoardConfig::default() }
}

#[test]
fn port_resolver_finds_the_matching_device() {
    let board = board_with(vec![BoardPortID { vid: 0x2341, pid: 0x0043 }]);
    let ports = vec![plain("/dev/ttyS0"), usb("/dev/ttyACM0", 0x2341, 0x0043)];
    match board.guess_port(&ports) {
        Some(Ok(path)) => assert_eq!(path, "/dev/ttyACM0"),
        other => panic!("unexpected outcome: {other:?}"),
    }
}

#[test]
fn port_resolver_fails_without_a_match() {
    let board = board_with(vec![BoardPortID { vid: 0x2341, pid: 0x0043 }]);
    let ports = vec![plain("/dev/ttyS0"), usb("/dev/ttyUSB0", 0x0403, 0x6001)];
    match board.guess_port(&ports) {
        Some(Err(e)) => {
            assert!(matches!(e, PortError::NotFound));
            assert_eq!(e.message(), "Serial port not found.");
        }
        other => panic!("unexpected outcome: {other:?}"),
    }
    assert!(matches!(board.guess_port(&Vec::new()), Some(Err(PortError::NotFound))));
}

#[test]
fn port_resolver_is_silent_without_usb_info() {
    let board = BoardConfig::default();
    let ports = vec![usb("/dev/ttyACM0", 0x2341, 0x0043)];
    assert!(board.guess_port(&ports).is_none());
    assert!(board.guess_port(&Vec::new()).is_none());
    assert!(get_board_from_name("trinket").unwrap().guess_port(&ports).is_none());
}

#[test]
fn port_resolver_gives_the_boards_own_error() {
    let nano = get_board_from_name("nano").unwrap();
    let ports = vec![usb("/dev/ttyUSB0", 0x1a86, 0x7523)];
    match nano.guess_port(&ports) {
        Some(Err(PortError::Undetectable(msg))) => assert_eq!(msg, "Not able to guess port"),
        other => panic!("unexpected outcome: {other:?}"),
    }
    match nano.guess_port(&Vec::new()) {
        Some(Err(e)) => assert_eq!(e.message(), "Not able to guess port"),
        other => panic!("unexpected outcome: {other:?}"),
    }
}

#[test]
fn first_match_wins_in_enumeration_order() {
    let uno = get_board_from_name("uno").unwrap();
    let ports = vec![
        usb("/dev/ttyUSB7", 0x0403, 0x6001),
        usb("/dev/ttyACM1", 0x2A03, 0x0043),
        usb("/dev/ttyACM0", 0x2341, 0x0043),
    ];
    match uno.guess_port(&ports) {
        Some(Ok(path)) => assert_eq!(path, "/dev/ttyACM1"),
        other => panic!("unexpected outcome: {other:?}"),
    }
}

#[test]
fn vendor_and_product_must_both_match() {
    let ids = vec![BoardPortID { vid: 0x2341, pid: 0x0043 }];
    assert!(has_port_id(&ids, BoardPortID { vid: 0x2341, pid: 0x0043 }));
    assert!(!has_port_id(&ids, BoardPortID { vid: 0x2341, pid: 0x0001 }));
    assert!(!has_port_id(&ids, BoardPortID { vid: 0x2A03, pid: 0x0043 }));
    assert!(!has_port_id(&Vec::new(), BoardPortID { vid: 0, pid: 0 }));
    let ports = vec![usb("a", 0x2341, 0x0001), usb("b", 0x2A03, 0x0043), plain("c")];
    assert_eq!(find_port(&ids, &ports), None);
    let ports = vec![plain("c"), usb("a", 0x2341, 0x0043), usb("b", 0x2341, 0x0043)];
    assert_eq!(find_port(&ids, &ports), Some(1));
}

#[test]
fn only_boards_with_ids_need_the_hosts_ports() {
    assert!(get_board_from_name("uno").unwrap().needs_port_search());
    assert!(get_board_from_name("mega2560").unwrap().needs_port_search());
    assert!(!get_board_from_name("nano").unwrap().needs_port_search());
    assert!(!get_board_from_name("trinket").unwrap().needs_port_search());
    assert!(!BoardConfig::default().needs_port_search());
    assert!(board_with(Vec::new()).needs_port_search());
}

#[test]
fn search_without_ids_is_the_same_among_any_ports() {
    let ports = vec![usb("/dev/ttyACM0", 0x2341, 0x0043), plain("/dev/ttyS0")];
    for name in ["nano", "trinket", "promini-5v"] {
        let board = get_board_from_name(name).unwrap();
        assert!(!board.needs_port_search());
        assert_eq!(
            format!("{:?}", board.guess_port(&ports)),
            format!("{:?}", board.guess_port(&Vec::new()))
        );
    }
}
