use cargo_avr::util::avr_libc::{
    device_info_from_binary, device_info_from_notes, device_name_from_binary, parse_device_info,
    read_notes, DeviceInfoError, ElfNote,
};

fn le(value: u32) -> [u8; 4] {
    value.to_le_bytes()
}

/// A descriptor with the given name offset and string table.
fn descriptor(name_offset: u32, strtab: &[u8]) -> Vec<u8> {
    let mut desc = Vec::new();
    for word in [0u32, 0x8000, 0x100, 0x800, 0, 0x400, 8, name_offset] {
        desc.extend_from_slice(&le(word));
    }
    desc.extend_from_slice(strtab);
    desc
}

/// One note of the given owner and type around `desc`, padded to 4 bytes.
fn note(owner: &str, n_type: u32, desc: &[u8]) -> Vec<u8> {
    let mut out = Vec::new();
    out.extend_from_slice(&le(owner.len() as u32 + 1));
    out.extend_from_slice(&le(desc.len() as u32));
    out.extend_from_slice(&le(n_type));
    out.extend_from_slice(owner.as_bytes());
    out.push(0);
    while out.len() % 4 != 0 {
        out.push(0);
    }
    out.extend_from_slice(desc);
    while out.len() % 4 != 0 {
        out.push(0);
    }
    out
}

/// A 32-bit little-endian object with one section of the given name, type
/// and content, and a section name table.
fn object(section_name: &str, section_type: u32, content: &[u8]) -> Vec<u8> {
    let mut names = vec![0u8];
    let name_at = names.len() as u32;
    names.extend_from_slice(section_name.as_bytes());
    names.push(0);
    let strtab_name_at = names.len() as u32;
    names.extend_from_slice(b".shstrtab\0");

    let content_at = 52u32;
    let names_at = content_at + content.len() as u32;
    let mut headers_at = names_at + names.len() as u32;
    let padding = (4 - headers_at % 4) % 4;
    headers_at += padding;

    let mut out = vec![0x7f, b'E', b'L', b'F', 1, 1, 1, 0, 0, 0, 0, 0, 0, 0, 0, 0];
    out.extend_from_slice(&2u16.to_le_bytes());
    out.extend_from_slice(&83u16.to_le_bytes());
    out.extend_from_slice(&le(1));
    out.extend_from_slice(&le(0));
    out.extend_from_slice(&le(0));
    out.extend_from_slice(&le(headers_at));
    out.extend_from_slice(&le(0));
    out.extend_from_slice(&52u16.to_le_bytes());
    out.extend_from_slice(&32u16.to_le_bytes());
    out.extend_from_slice(&0u16.to_le_bytes());
    out.extend_from_slice(&40u16.to_le_bytes());
    out.extend_from_slice(&3u16.to_le_bytes());
    out.extend_from_slice(&2u16.to_le_bytes());
    assert_eq!(out.len(), 52);
    out.extend_from_slice(content);
    out.extend_from_slice(&names);
    for _ in 0..padding {
        out.push(0);
    }
    out.extend_from_slice(&[0u8; 40]);
    for word in [name_at, section_type, 0, 0, content_at, content.len() as u32, 0, 0, 4, 0] {
        out.extend_from_slice(&le(word));
    }
    for word in [strtab_name_at, 3, 0, 0, names_at, names.len() as u32, 0, 0, 1, 0] {
        out.extend_from_slice(&le(word));
    }
    out
}

const SECTION: &str = ".note.gnu.avr.deviceinfo";

#[test]
fn descriptor_with_offset_zero_names_the_device() {
    let info = parse_device_info(&descriptor(0, b"atmega328p\0")).unwrap();
    assert_eq!(info.name, "atmega328p");
    assert_eq!(info.flash_start, 0);
    assert_eq!(info.flash_size, 0x8000);
    assert_eq!(info.sram_start, 0x100);
    assert_eq!(info.sram_size, 0x800);
    assert_eq!(info.eeprom_start, 0);
    assert_eq!(info.eeprom_size, 0x400);
}

#[test]
fn descriptor_name_starts_at_the_offset() {
    let info = parse_device_info(&descriptor(1, b"\0attiny85\0")).unwrap();
    assert_eq!(info.name, "attiny85");
    let info = parse_device_info(&descriptor(4, b"abc\0atmega2560\0tail")).unwrap();
    assert_eq!(info.name, "atmega2560");
    let info = parse_device_info(&descriptor(0, b"\0")).unwrap();
    assert_eq!(info.name, "");
}

#[test]
fn descriptor_numbers_are_little_endian() {
    let mut desc = descriptor(0, b"x\0");
    desc[4..8].copy_from_slice(&[0x78, 0x56, 0x34, 0x12]);
    desc[20..24].copy_from_slice(&[0xff, 0xff, 0xff, 0xff]);
    let info = parse_device_info(&desc).unwrap();
    assert_eq!(info.flash_size, 0x12345678);
    assert_eq!(info.eeprom_size, u32::MAX);
}

#[test]
fn short_descriptor_is_malformed() {
    assert_eq!(parse_device_info(&[]).unwrap_err(), DeviceInfoError::MalformedDescriptor);
    let desc = descriptor(0, b"atmega328p\0");
    assert_eq!(parse_device_info(&desc[..31]).unwrap_err(), DeviceInfoError::MalformedDescriptor);
    assert_eq!(parse_device_info(&desc[..32]).unwrap_err(), DeviceInfoError::MalformedDescriptor);
}

#[test]
fn name_that_runs_off_the_descriptor_is_malformed() {
    assert_eq!(
        parse_device_info(&descriptor(0, b"atmega328p")).unwrap_err(),
        DeviceInfoError::MalformedDescriptor
    );
    assert_eq!(
        parse_device_info(&descriptor(11, b"atmega328p\0")).unwrap_err(),
        DeviceInfoError::MalformedDescriptor
    );
    assert_eq!(
        parse_device_info(&descriptor(u32::MAX, b"atmega328p\0")).unwrap_err(),
        DeviceInfoError::MalformedDescriptor
    );
}

#[test]
fn name_must_be_utf8() {
    assert_eq!(
        parse_device_info(&descriptor(0, b"atmega\xff\0")).unwrap_err(),
        DeviceInfoError::InvalidName
    );
    let info = parse_device_info(&descriptor(0, "at\u{00b5}mega\0".as_bytes())).unwrap();
    assert_eq!(info.name, "at\u{00b5}mega");
}

#[test]
fn binary_with_the_vendor_note_names_the_device() {
    let binary = object(SECTION, 7, &note("AVR", 1, &descriptor(0, b"atmega328p\0")));
    assert_eq!(device_name_from_binary(&binary).unwrap(), "atmega328p");
    let info = device_info_from_binary(&binary).unwrap();
    assert_eq!(info.name, "atmega328p");
    assert_eq!(info.flash_size, 0x8000);
}

#[test]
fn binary_without_the_note_section_has_no_device_info() {
    let binary = object(".note.other", 7, &note("AVR", 1, &descriptor(0, b"atmega328p\0")));
    assert_eq!(device_name_from_binary(&binary).unwrap_err(), DeviceInfoError::SectionNotFound);
    assert_eq!(
        DeviceInfoError::SectionNotFound.message(),
        "AVR device info section not found"
    );
}

#[test]
fn binary_that_is_no_object_is_refused() {
    assert_eq!(device_name_from_binary(&[]).unwrap_err(), DeviceInfoError::MalformedObject);
    assert_eq!(
        device_name_from_binary(b"not an object file at all, only some text that is long enough")
            .unwrap_err(),
        DeviceInfoError::MalformedObject
    );
    let binary = object(SECTION, 7, &note("AVR", 1, &descriptor(0, b"atmega328p\0")));
    assert_eq!(
        device_name_from_binary(&binary[..binary.len() - 1]).unwrap_err(),
        DeviceInfoError::MalformedObject
    );
}

#[test]
fn section_that_holds_no_notes_is_refused() {
    let binary = object(SECTION, 1, &note("AVR", 1, &descriptor(0, b"atmega328p\0")));
    assert_eq!(device_name_from_binary(&binary).unwrap_err(), DeviceInfoError::MalformedObject);
}

#[test]
fn notes_of_other_owners_or_types_are_passed_over() {
    let mut content = note("GNU", 3, &[1, 2, 3, 4]);
    content.extend_from_slice(&note("AVR", 2, &descriptor(0, b"other\0")));
    content.extend_from_slice(&note("XYZ", 1, &descriptor(0, b"other\0")));
    content.extend_from_slice(&note("AVR", 1, &descriptor(1, b"\0atmega32u4\0")));
    content.extend_from_slice(&note("AVR", 1, &descriptor(0, b"later\0")));
    let binary = object(SECTION, 7, &content);
    assert_eq!(device_name_from_binary(&binary).unwrap(), "atmega32u4");

    let notes = read_notes(&binary, SECTION).unwrap();
    assert_eq!(notes.len(), 5);
    assert!(matches!(notes[0], ElfNote::GnuBuildId));
    match &notes[1] {
        ElfNote::Unknown { n_type, name, desc } => {
            assert_eq!(*n_type, 2);
            assert_eq!(name, "AVR");
            assert_eq!(desc, &descriptor(0, b"other\0"));
        }
        other => panic!("unexpected note: {other:?}"),
    }
}

#[test]
fn section_without_the_vendor_note_has_no_device_info() {
    let mut content = note("GNU", 3, &[1, 2, 3, 4]);
    content.extend_from_slice(&note("AVR", 2, &descriptor(0, b"other\0")));
    let binary = object(SECTION, 7, &content);
    assert_eq!(device_name_from_binary(&binary).unwrap_err(), DeviceInfoError::NoteNotFound);
    let binary = object(SECTION, 7, &[]);
    assert_eq!(device_name_from_binary(&binary).unwrap_err(), DeviceInfoError::NoteNotFound);
    assert_eq!(DeviceInfoError::NoteNotFound.message(), "AVR device info note not found");
}

#[test]
fn malformed_descriptor_in_a_binary_is_fatal() {
    let binary = object(SECTION, 7, &note("AVR", 1, &[0u8; 16]));
    assert_eq!(
        device_name_from_binary(&binary).unwrap_err(),
        DeviceInfoError::MalformedDescriptor
    );
}

#[test]
fn device_info_from_given_notes() {
    let notes = vec![
        ElfNote::GnuAbiTag,
        ElfNote::Unknown { n_type: 1, name: "avr".to_string(), desc: descriptor(0, b"no\0") },
        ElfNote::Unknown { n_type: 1, name: "AVR".to_string(), desc: descriptor(0, b"yes\0") },
    ];
    assert_eq!(device_info_from_notes(&notes).unwrap().name, "yes");
    assert_eq!(
        device_info_from_notes(&Vec::new()).unwrap_err(),
        DeviceInfoError::NoteNotFound
    );
    let notes = vec![ElfNote::Unknown { n_type: 1, name: "AVR".to_string(), desc: vec![0; 8] }];
    assert_eq!(
        device_info_from_notes(&notes).unwrap_err(),
        DeviceInfoError::MalformedDescriptor
    );
}

#[test]
fn read_notes_of_a_missing_section() {
    let binary = object(SECTION, 7, &note("AVR", 1, &descriptor(0, b"atmega328p\0")));
    assert_eq!(read_notes(&binary, ".text").unwrap_err(), DeviceInfoError::SectionNotFound);
    assert_eq!(read_notes(&binary, ".shstrtab").unwrap_err(), DeviceInfoError::MalformedObject);
}
