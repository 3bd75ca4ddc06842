use cargo_avr::avrdude::Baudrate;
use cargo_avr::board::config::{BoardPortID, DetectedPort, PortError};
use cargo_avr::board::get_board_from_name;
use cargo_avr::util::avr_libc::DeviceInfoError;
use cargo_avr::util::avrdude::flash_binary;
use cargo_avr::util::console::{attach_console, AttachError};
use cargo_avr::util::options::{
    AttachOptions, AttachProtocol, BoardOptions, OptionsError, ProgrammerOptions,
    SerialAttachOptions,
};

fn no_options() -> ProgrammerOptions {
    ProgrammerOptions { name: None, port: None, baudrate: None, erase_chip: None }
}

fn uno_port() -> DetectedPort {
    DetectedPort {
        port_name: "/dev/ttyACM0".to_string(),
        usb_id: Some(BoardPortID { vid: 0x2341, pid: 0x0043 }),
    }
}

/// A minimal object whose device information names `chip`.
fn binary_for(chip: &str) -> Vec<u8> {
    let mut desc = Vec::new();
    for word in [0u32, 0x8000, 0x100, 0x800, 0, 0x400, 8, 1] {
        desc.extend_from_slice(&word.to_le_bytes());
    }
    desc.push(0);
    desc.extend_from_slice(chip.as_bytes());
    desc.push(0);
    let mut content = Vec::new();
    for word in [4u32, desc.len() as u32, 1] {
        content.extend_from_slice(&word.to_le_bytes());
    }
    content.extend_from_slice(b"AVR\0");
    content.extend_from_slice(&desc);
    while content.len() % 4 != 0 {
        content.push(0);
    }
    let names = b"\0.note.gnu.avr.deviceinfo\0.shstrtab\0";
    let content_at = 52u32;
    let names_at = content_at + content.len() as u32;
    let mut headers_at = names_at + names.len() as u32;
    let padding = (4 - headers_at % 4) % 4;
    headers_at += padding;
    let mut out = vec![0x7f, b'E', b'L', b'F', 1, 1, 1, 0, 0, 0, 0, 0, 0, 0, 0, 0];
    out.extend_from_slice(&2u16.to_le_bytes());
    out.extend_from_slice(&83u16.to_le_bytes());
    for word in [1u32, 0, 0, headers_at, 0] {
        out.extend_from_slice(&word.to_le_bytes());
    }
    for half in [52u16, 32, 0, 40, 3, 2] {
        out.extend_from_slice(&half.to_le_bytes());
    }
    out.extend_from_slice(&content);
    out.extend_from_slice(names);
    for _ in 0..padding {
        out.push(0);
    }
    out.extend_from_slice(&[0u8; 40]);
    for word in [1u32, 7, 0, 0, content_at, content.len() as u32, 0, 0, 4, 0] {
        out.extend_from_slice(&word.to_le_bytes());
    }
    for word in [26u32, 3, 0, 0, names_at, names.len() as u32, 0, 0, 1, 0] {
        out.extend_from_slice(&word.to_le_bytes());
    }
    out
}

#[test]
fn command_line_port_overrides_a_live_match() {
    let options = BoardOptions {
        board: "uno".to_string(),
        programmer_opts: ProgrammerOptions { port: Some("/dev/ttyUSB9".to_string()), ..no_options() },
    };
    let uno = get_board_from_name("uno").unwrap();
    let resolved = options.resolve_among(uno, &vec![uno_port()]).unwrap();
    assert_eq!(resolved.port.as_deref(), Some("/dev/ttyUSB9"));

    let given = ProgrammerOptions { port: Some("/dev/ttyUSB9".to_string()), ..no_options() };
    let avrdude = get_board_from_name("uno").unwrap().avrdude;
    let resolved =
        BoardOptions::resolve(given, avrdude, Some(Ok("/dev/ttyACM0".to_string()))).unwrap();
    assert_eq!(resolved.port.as_deref(), Some("/dev/ttyUSB9"));
}

#[test]
fn command_line_port_overrides_a_failed_search() {
    let given = ProgrammerOptions { port: Some("/dev/ttyUSB9".to_string()), ..no_options() };
    let avrdude = get_board_from_name("nano").unwrap().avrdude;
    let resolved = BoardOptions::resolve(given, avrdude, Some(Err(PortError::NotFound))).unwrap();
    assert_eq!(resolved.port.as_deref(), Some("/dev/ttyUSB9"));
    assert_eq!(resolved.baudrate.map(|b| b.get()), Some(57600));

    let options = BoardOptions {
        board: "nano".to_string(),
        programmer_opts: ProgrammerOptions { port: Some("/dev/ttyUSB9".to_string()), ..no_options() },
    };
    assert!(!options.needs_port_search());
    let resolved = options.into_programmer_options(&vec![uno_port()]).unwrap();
    assert_eq!(resolved.port.as_deref(), Some("/dev/ttyUSB9"));
    assert_eq!(resolved.name.as_deref(), Some("arduino"));
}

#[test]
fn uno_end_to_end() {
    let options = BoardOptions { board: "uno".to_string(), programmer_opts: no_options() };
    let uno = get_board_from_name("uno").unwrap();
    let ports = vec![
        DetectedPort { port_name: "/dev/ttyS0".to_string(), usb_id: None },
        uno_port(),
    ];
    let resolved = options.resolve_among(uno, &ports).unwrap();
    assert_eq!(resolved.name.as_deref(), Some("arduino"));
    assert!(resolved.baudrate.is_none());
    assert_eq!(resolved.port.as_deref(), Some("/dev/ttyACM0"));
    assert_eq!(resolved.erase_chip, Some(true));

    let request = flash_binary(&resolved, &binary_for("atmega328p")).unwrap();
    assert_eq!(request.options.programmer.as_deref(), Some("arduino"));
    assert_eq!(request.options.partno.as_deref(), Some("atmega328p"));
    assert!(matches!(request.options.baudrate, Some(None)));
    assert_eq!(request.options.do_chip_erase, Some(true));
    assert_eq!(request.port.as_deref(), Some("/dev/ttyACM0"));
    assert!(request.show_command);
}

#[test]
fn resolution_fails_when_no_port_matches() {
    let options = BoardOptions { board: "uno".to_string(), programmer_opts: no_options() };
    let uno = get_board_from_name("uno").unwrap();
    match options.resolve_among(uno, &Vec::new()) {
        Err(OptionsError::Port(PortError::NotFound)) => {}
        other => panic!("unexpected outcome: {other:?}"),
    }
    let options = BoardOptions { board: "nano".to_string(), programmer_opts: no_options() };
    assert!(!options.needs_port_search());
    match options.into_programmer_options(&vec![uno_port()]) {
        Err(e) => assert_eq!(e.message(), "Not able to guess port"),
        other => panic!("unexpected outcome: {other:?}"),
    }
}

#[test]
fn resolution_leaves_the_port_open_without_usb_info() {
    let options = BoardOptions { board: "trinket".to_string(), programmer_opts: no_options() };
    assert!(!options.needs_port_search());
    let resolved = options.into_programmer_options(&vec![uno_port()]).unwrap();
    assert!(resolved.port.is_none());
    assert_eq!(resolved.name.as_deref(), Some("usbtiny"));
    assert!(resolved.baudrate.is_none());
    assert_eq!(resolved.erase_chip, Some(false));
}

#[test]
fn resolution_of_an_unknown_board() {
    let options = BoardOptions { board: "due".to_string(), programmer_opts: no_options() };
    assert!(!options.needs_port_search());
    match options.into_programmer_options(&Vec::new()) {
        Err(OptionsError::Board(e)) => {
            assert_eq!(e.board, "due");
            assert_eq!(e.valid_boards.len(), 15);
        }
        other => panic!("unexpected outcome: {other:?}"),
    }
}

#[test]
fn resolution_needs_avrdude_options() {
    match BoardOptions::resolve(no_options(), None, None) {
        Err(e) => {
            assert!(matches!(e, OptionsError::MissingAvrdude));
            assert_eq!(e.message(), "board has no avrdude options");
        }
        other => panic!("unexpected outcome: {other:?}"),
    }
}

#[test]
fn command_line_options_win_over_the_boards() {
    let given = ProgrammerOptions {
        name: Some("stk500v1".to_string()),
        port: None,
        baudrate: Baudrate::new(19200),
        erase_chip: Some(false),
    };
    let avrdude = get_board_from_name("micro").unwrap().avrdude;
    let resolved = BoardOptions::resolve(given, avrdude, None).unwrap();
    assert_eq!(resolved.name.as_deref(), Some("stk500v1"));
    assert_eq!(resolved.baudrate.map(|b| b.get()), Some(19200));
    assert_eq!(resolved.erase_chip, Some(false));
    assert!(resolved.port.is_none());

    let avrdude = get_board_from_name("micro").unwrap().avrdude;
    let resolved = BoardOptions::resolve(no_options(), avrdude, None).unwrap();
    assert_eq!(resolved.name.as_deref(), Some("avr109"));
    assert_eq!(resolved.baudrate.map(|b| b.get()), Some(115200));
    assert_eq!(resolved.erase_chip, Some(true));
}

#[test]
fn avrdude_options_from_a_binary() {
    let options = ProgrammerOptions {
        name: Some("usbasp".to_string()),
        port: Some("usb".to_string()),
        baudrate: Baudrate::new(9600),
        erase_chip: None,
    };
    let (avrdude, port) = options.into_avrdude_options(&binary_for("attiny85")).unwrap();
    assert_eq!(avrdude.programmer.as_deref(), Some("usbasp"));
    assert_eq!(avrdude.partno.as_deref(), Some("attiny85"));
    assert_eq!(avrdude.baudrate.unwrap().map(|b| b.get()), Some(9600));
    assert!(avrdude.do_chip_erase.is_none());
    assert_eq!(port.as_deref(), Some("usb"));

    let (avrdude, port) = no_options().avrdude_options_for_chip("atmega8".to_string());
    assert!(avrdude.programmer.is_none());
    assert_eq!(avrdude.partno.as_deref(), Some("atmega8"));
    assert!(matches!(avrdude.baudrate, Some(None)));
    assert!(port.is_none());
}

#[test]
fn binary_without_device_info_is_not_flashed() {
    assert_eq!(
        no_options().into_avrdude_options(&[1, 2, 3]).unwrap_err(),
        DeviceInfoError::MalformedObject
    );
    assert_eq!(
        flash_binary(&no_options(), &[]).unwrap_err(),
        DeviceInfoError::MalformedObject
    );
}

#[test]
fn attach_options_from_programmer_options() {
    let options = ProgrammerOptions {
        name: Some("arduino".to_string()),
        port: Some("/dev/ttyACM0".to_string()),
        baudrate: Baudrate::new(57600),
        erase_chip: Some(true),
    };
    let attach = options.into_attach_options();
    assert_eq!(attach.protocol, AttachProtocol::Serial);
    assert_eq!(attach.serial_opts.port.as_deref(), Some("/dev/ttyACM0"));
    assert_eq!(attach.serial_opts.baudrate.map(|b| b.get()), Some(57600));
    let attach = no_options().into_attach_options();
    assert_eq!(attach.protocol, AttachProtocol::Serial);
    assert!(attach.serial_opts.port.is_none() && attach.serial_opts.baudrate.is_none());
}

#[test]
fn attach_merge_keeps_what_is_set() {
    let mut attach = AttachOptions {
        protocol: AttachProtocol::Off,
        serial_opts: SerialAttachOptions { port: None, baudrate: Baudrate::new(9600) },
    };
    attach.merge(AttachOptions {
        protocol: AttachProtocol::Serial,
        serial_opts: SerialAttachOptions {
            port: Some("/dev/ttyACM0".to_string()),
            baudrate: Baudrate::new(115200),
        },
    });
    assert_eq!(attach.protocol, AttachProtocol::Off);
    assert_eq!(attach.serial_opts.port.as_deref(), Some("/dev/ttyACM0"));
    assert_eq!(attach.serial_opts.baudrate.map(|b| b.get()), Some(9600));

    let mut attach = AttachOptions {
        protocol: AttachProtocol::Serial,
        serial_opts: SerialAttachOptions { port: Some("/dev/ttyUSB0".to_string()), baudrate: None },
    };
    attach.merge(AttachOptions {
        protocol: AttachProtocol::Serial,
        serial_opts: SerialAttachOptions { port: None, baudrate: None },
    });
    assert_eq!(attach.serial_opts.port.as_deref(), Some("/dev/ttyUSB0"));
    assert!(attach.serial_opts.baudrate.is_none());
}

#[test]
fn console_needs_port_then_baudrate() {
    let none = SerialAttachOptions { port: None, baudrate: None };
    assert_eq!(attach_console(&none).unwrap_err(), AttachError::PortRequired);
    let no_port = SerialAttachOptions { port: None, baudrate: Baudrate::new(9600) };
    assert_eq!(attach_console(&no_port).unwrap_err(), AttachError::PortRequired);
    let no_baud = SerialAttachOptions { port: Some("/dev/ttyACM0".to_string()), baudrate: None };
    assert_eq!(attach_console(&no_baud).unwrap_err(), AttachError::BaudrateRequired);
    let both = SerialAttachOptions {
        port: Some("/dev/ttyACM0".to_string()),
        baudrate: Baudrate::new(9600),
    };
    let request = attach_console(&both).unwrap();
    assert_eq!(request.port, "/dev/ttyACM0");
    assert_eq!(request.baudrate, 9600);
    assert_eq!(
        AttachError::PortRequired.message(),
        "Serial port is required; specify it with `--serial-port` or `CARGO_AVR_SERIAL_PORT`"
    );
    assert_eq!(
        AttachError::BaudrateRequired.message(),
        "Serial baudrate is required; specify it with `--serial-baudrate` or `CARGO_AVR_SERIAL_BAUDRATE`"
    );
}

#[test]
fn resolution_of_a_catalog_board_among_the_hosts_ports() {
    let options = BoardOptions { board: "uno".to_string(), programmer_opts: no_options() };
    assert!(options.needs_port_search());
    let ports = vec![
        DetectedPort { port_name: "/dev/ttyS0".to_string(), usb_id: None },
        uno_port(),
    ];
    let resolved = options.into_programmer_options(&ports).unwrap();
    assert_eq!(resolved.port.as_deref(), Some("/dev/ttyACM0"));
    assert_eq!(resolved.name.as_deref(), Some("arduino"));

    let options = BoardOptions { board: "uno".to_string(), programmer_opts: no_options() };
    match options.into_programmer_options(&Vec::new()) {
        Err(e) => {
            assert!(matches!(e, OptionsError::Port(PortError::NotFound)));
            assert_eq!(e.message(), "Serial port not found.");
        }
        other => panic!("unexpected outcome: {other:?}"),
    }
}

#[test]
fn the_hosts_ports_are_needed_only_without_a_given_port() {
    let with_port = |board: &str| BoardOptions {
        board: board.to_string(),
        programmer_opts: ProgrammerOptions { port: Some("/dev/ttyUSB9".to_string()), ..no_options() },
    };
    let without_port =
        |board: &str| BoardOptions { board: board.to_string(), programmer_opts: no_options() };
    assert!(without_port("uno").needs_port_search());
    assert!(without_port("leonardo").needs_port_search());
    assert!(!with_port("uno").needs_port_search());
    assert!(!without_port("nano").needs_port_search());
    assert!(!without_port("trinket-pro").needs_port_search());
    assert!(!without_port("no-such-board").needs_port_search());
}
