use cargo_avr::avrdude::{Baudrate, BoardAvrdudeOptions};
use cargo_avr::board::config::{BoardConfig, BoardPortID, BoardUSBInfo, ResetOptions};
use cargo_avr::board::get_board_from_name;

fn full_avrdude(programmer: &str, partno: &str, baud: u32, erase: bool) -> BoardAvrdudeOptions {
    BoardAvrdudeOptions {
        programmer: Some(programmer.to_string()),
        partno: Some(partno.to_string()),
        baudrate: Some(Baudrate::new(baud)),
        do_chip_erase: Some(erase),
    }
}

fn full_child() -> BoardConfig {
    BoardConfig {
        name: Some("My Board".to_string()),
        inherit: None,
        reset: Some(ResetOptions { automatic: false }),
        avrdude: Some(full_avrdude("stk500", "atmega8", 9600, false)),
        usb_info: Some(BoardUSBInfo::PortIds(vec![BoardPortID { vid: 1, pid: 2 }])),
    }
}

#[test]
fn merge_keeps_a_fully_specified_child() {
    let merged = full_child().merge(get_board_from_name("uno").unwrap());
    assert_eq!(merged.name.as_deref(), Some("My Board"));
    assert!(merged.inherit.is_none());
    assert_eq!(merged.reset, Some(ResetOptions { automatic: false }));
    let avrdude = merged.avrdude.unwrap();
    assert_eq!(avrdude.programmer.as_deref(), Some("stk500"));
    assert_eq!(avrdude.partno.as_deref(), Some("atmega8"));
    assert_eq!(avrdude.baudrate.unwrap().map(|b| b.get()), Some(9600));
    assert_eq!(avrdude.do_chip_erase, Some(false));
    match merged.usb_info {
        Some(BoardUSBInfo::PortIds(ids)) => assert_eq!(ids, vec![BoardPortID { vid: 1, pid: 2 }]),
        other => panic!("unexpected usb info: {other:?}"),
    }
}

#[test]
fn merge_drops_child_avrdude_when_base_has_none() {
    let base = BoardConfig { name: Some("Base".to_string()), ..BoardConfig::default() };
    let merged = full_child().merge(base);
    assert!(merged.avrdude.is_none());
    assert_eq!(merged.name.as_deref(), Some("My Board"));
}

#[test]
fn merge_takes_base_avrdude_when_child_has_none() {
    let child = BoardConfig { inherit: Some("nano".to_string()), ..BoardConfig::default() };
    let merged = child.merge(get_board_from_name("nano").unwrap());
    assert!(merged.inherit.is_none());
    assert_eq!(merged.name.as_deref(), Some("Arduino Nano"));
    assert_eq!(merged.reset, Some(ResetOptions { automatic: true }));
    let avrdude = merged.avrdude.unwrap();
    assert_eq!(avrdude.programmer.as_deref(), Some("arduino"));
    assert_eq!(avrdude.baudrate.unwrap().map(|b| b.get()), Some(57600));
    assert!(matches!(merged.usb_info, Some(BoardUSBInfo::Error(_))));
}

#[test]
fn merge_avrdude_field_by_field() {
    let child = BoardConfig {
        inherit: Some("nano".to_string()),
        avrdude: Some(BoardAvrdudeOptions {
            programmer: None,
            partno: Some("atmega168".to_string()),
            baudrate: Some(None),
            do_chip_erase: None,
        }),
        ..BoardConfig::default()
    };
    let merged = child.merge(get_board_from_name("nano").unwrap());
    let avrdude = merged.avrdude.unwrap();
    assert_eq!(avrdude.programmer.as_deref(), Some("arduino"));
    assert_eq!(avrdude.partno.as_deref(), Some("atmega168"));
    assert!(matches!(avrdude.baudrate, Some(None)));
    assert_eq!(avrdude.do_chip_erase, Some(true));
}

#[test]
fn merge_always_clears_inherit() {
    let child = BoardConfig { inherit: Some("uno".to_string()), ..BoardConfig::default() };
    let base = BoardConfig { inherit: Some("nano".to_string()), ..BoardConfig::default() };
    assert!(child.merge(base).inherit.is_none());
}

#[test]
fn merge_twice_is_merge_once() {
    let once = full_child().merge(get_board_from_name("micro").unwrap());
    let twice = full_child()
        .merge(get_board_from_name("micro").unwrap())
        .merge(get_board_from_name("micro").unwrap());
    assert_eq!(format!("{once:?}"), format!("{twice:?}"));
}

#[test]
fn avrdude_options_merge() {
    let own = BoardAvrdudeOptions {
        programmer: Some("usbasp".to_string()),
        partno: None,
        baudrate: None,
        do_chip_erase: None,
    };
    let merged = own.merge(full_avrdude("arduino", "atmega328p", 0, true));
    assert_eq!(merged.programmer.as_deref(), Some("usbasp"));
    assert_eq!(merged.partno.as_deref(), Some("atmega328p"));
    assert!(matches!(merged.baudrate, Some(None)));
    assert_eq!(merged.do_chip_erase, Some(true));
}

#[test]
fn default_board_is_empty_and_incomplete() {
    let board = BoardConfig::default();
    assert!(board.name.is_none() && board.inherit.is_none() && board.reset.is_none());
    assert!(board.avrdude.is_none() && board.usb_info.is_none());
    assert!(!board.is_complete());
    assert!(full_child().is_complete());
    let inheriting = BoardConfig { inherit: Some("uno".to_string()), ..full_child() };
    assert!(!inheriting.is_complete());
}
