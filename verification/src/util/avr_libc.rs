//! The device information that the AVR toolchain leaves in a compiled
//! binary: a note of the vendor `AVR` in the section
//! `.note.gnu.avr.deviceinfo`.

use vstd::prelude::*;
use vstd::string::StringExecFns;
use vstd::utf8::{decode_utf8, valid_utf8};

verus! {

/// Why no device information could be had from a binary.
#[derive(Clone, Copy, Debug, PartialEq, Eq, Structural)]
pub enum DeviceInfoError {
    /// The binary is no well-formed object file.
    MalformedObject,
    /// The object has no device information section.
    SectionNotFound,
    /// The section holds no note of the vendor with the expected type.
    NoteNotFound,
    /// The note's descriptor is too short, or its name runs off its end.
    MalformedDescriptor,
    /// The device name is not valid UTF-8.
    InvalidName,
}

/// What a binary says of the chip it was built for.
#[derive(Debug)]
pub struct DeviceInfo {
    pub flash_start: u32,
    pub flash_size: u32,
    pub sram_start: u32,
    pub sram_size: u32,
    pub eeprom_start: u32,
    pub eeprom_size: u32,
    /// The device's name, which the flashing tool takes as its part number.
    pub name: String,
}

/// The mathematical content of a [`DeviceInfo`].
pub struct DeviceInfoView {
    pub flash_start: u32,
    pub flash_size: u32,
    pub sram_start: u32,
    pub sram_size: u32,
    pub eeprom_start: u32,
    pub eeprom_size: u32,
    pub name: Seq<char>,
}

impl View for DeviceInfo {
    type V = DeviceInfoView;

    open spec fn view(&self) -> DeviceInfoView {
        DeviceInfoView {
            flash_start: self.flash_start,
            flash_size: self.flash_size,
            sram_start: self.sram_start,
            sram_size: self.sram_size,
            eeprom_start: self.eeprom_start,
            eeprom_size: self.eeprom_size,
            name: self.name@,
        }
    }
}

/// The length of a descriptor's fixed part: three pairs of start and size,
/// the size of the offset table, and the table's one entry. The string table
/// follows it.
pub const DESC_FIXED_LEN: usize = 32;

/// Where in a descriptor the offset of the device name stands.
pub const NAME_OFFSET_AT: usize = 28;

/// The 32-bit little-endian number that stands in `bytes` at `at`.
pub open spec fn le_u32(bytes: Seq<u8>, at: int) -> int {
    bytes[at] + 0x100 * bytes[at + 1] + 0x1_0000 * bytes[at + 2] + 0x100_0000 * bytes[at + 3]
}

/// Where in `desc` the device name begins: in the string table, at the
/// offset that the offset table's entry gives.
pub open spec fn name_start(desc: Seq<u8>) -> int {
    DESC_FIXED_LEN + le_u32(desc, NAME_OFFSET_AT as int)
}

/// `end` is the position of the first zero byte of `bytes` at or after
/// `start`.
pub open spec fn is_terminator(bytes: Seq<u8>, start: int, end: int) -> bool {
    &&& 0 <= start <= end < bytes.len()
    &&& bytes[end] == 0
    &&& forall|j: int| start <= j < end ==> #[trigger] bytes[j] != 0
}

/// The bytes of the device name in `desc`, without the zero byte that ends
/// them; nothing where `desc` is shorter than its fixed part or no zero byte
/// follows the name's start.
pub open spec fn name_bytes(desc: Seq<u8>) -> Option<Seq<u8>> {
    if desc.len() >= DESC_FIXED_LEN && exists|end: int|
        is_terminator(desc, name_start(desc), end) {
        Some(
            desc.subrange(
                name_start(desc),
                choose|end: int| is_terminator(desc, name_start(desc), end),
            ),
        )
    } else {
        None
    }
}

/// What the descriptor `desc` says of the device.
pub open spec fn device_info_of(desc: Seq<u8>) -> Result<DeviceInfoView, DeviceInfoError> {
    match name_bytes(desc) {
        None => Err(DeviceInfoError::MalformedDescriptor),
        Some(name) => if valid_utf8(name) {
            Ok(
                DeviceInfoView {
                    flash_start: le_u32(desc, 0) as u32,
                    flash_size: le_u32(desc, 4) as u32,
                    sram_start: le_u32(desc, 8) as u32,
                    sram_size: le_u32(desc, 12) as u32,
                    eeprom_start: le_u32(desc, 16) as u32,
                    eeprom_size: le_u32(desc, 20) as u32,
                    name: decode_utf8(name),
                },
            )
        } else {
            Err(DeviceInfoError::InvalidName)
        },
    }
}

/// The view of a result of device information.
pub open spec fn view_device_result(r: Result<DeviceInfo, DeviceInfoError>) -> Result<
    DeviceInfoView,
    DeviceInfoError,
> {
    match r {
        Ok(info) => Ok(info@),
        Err(e) => Err(e),
    }
}

/// Turns bytes into a string by `String::from_utf8` of the standard
/// library, which accepts exactly the valid UTF-8 sequences and gives the
/// string that they encode.
#[verifier::external_body]
fn string_from_utf8(bytes: Vec<u8>) -> (r: Option<String>)
    ensures
        r is Some <==> valid_utf8(bytes@),
        r matches Some(s) ==> s@ == decode_utf8(bytes@),
{
    String::from_utf8(bytes).ok()
}

/// Reads the 32-bit little-endian number at `at`.
fn read_le_u32(bytes: &[u8], at: usize) -> (r: u32)
    requires
        at + 4 <= bytes@.len(),
    ensures
        r == le_u32(bytes@, at as int),
{
    let b0: u32 = bytes[at] as u32;
    let b1: u32 = bytes[at + 1] as u32;
    let b2: u32 = bytes[at + 2] as u32;
    let b3: u32 = bytes[at + 3] as u32;
    b0 + 0x100 * b1 + 0x1_0000 * b2 + 0x100_0000 * b3
}

/// Reads the device information out of a note's descriptor. The descriptor
/// is little-endian. It must hold its fixed part, and the device name must
/// end in a zero byte inside it and be valid UTF-8.
pub fn parse_device_info(desc: &[u8]) -> (r: Result<DeviceInfo, DeviceInfoError>)
    ensures
        view_device_result(r) == device_info_of(desc@),
{
    if desc.len() < DESC_FIXED_LEN {
        return Err(DeviceInfoError::MalformedDescriptor);
    }
    let offset: u32 = read_le_u32(desc, NAME_OFFSET_AT);
    let start_wide: u64 = DESC_FIXED_LEN as u64 + offset as u64;
    if start_wide >= desc.len() as u64 {
        assert(forall|end: int| !is_terminator(desc@, name_start(desc@), end));
        return Err(DeviceInfoError::MalformedDescriptor);
    }
    let start: usize = start_wide as usize;
    let mut end: usize = start;
    let mut name: Vec<u8> = Vec::new();
    while end < desc.len() && desc[end] != 0
        invariant
            start <= end <= desc@.len(),
            forall|j: int| start <= j < end ==> #[trigger] desc@[j] != 0,
            name@ == desc@.subrange(start as int, end as int),
        decreases desc@.len() - end,
    {
        name.push(desc[end]);
        end += 1;
        assert(name@ =~= desc@.subrange(start as int, end as int));
    }
    if end >= desc.len() {
        assert(forall|e: int| !is_terminator(desc@, name_start(desc@), e));
        return Err(DeviceInfoError::MalformedDescriptor);
    }
    assert(is_terminator(desc@, name_start(desc@), end as int));
    assert forall|e: int| is_terminator(desc@, name_start(desc@), e) implies e == end by {
        if e < end {
            assert(desc@[e] != 0);
        } else if e > end {
            assert(desc@[end as int] == 0);
        }
    }
    match string_from_utf8(name) {
        None => Err(DeviceInfoError::InvalidName),
        Some(name) => Ok(
            DeviceInfo {
                flash_start: read_le_u32(desc, 0),
                flash_size: read_le_u32(desc, 4),
                sram_start: read_le_u32(desc, 8),
                sram_size: read_le_u32(desc, 12),
                eeprom_start: read_le_u32(desc, 16),
                eeprom_size: read_le_u32(desc, 20),
                name,
            },
        ),
    }
}

/// An object file that the `elf` crate has opened: its `ElfBytes`, read in
/// whichever byte order the file's header declares.
#[verifier::external_body]
pub struct ElfFile<'a> {
    inner: elf::ElfBytes<'a, elf::endian::AnyEndian>,
}

/// The `elf` crate's walk over the notes of a section: its `NoteIterator`.
#[verifier::external_body]
pub struct NoteCursor<'a> {
    inner: elf::note::NoteIterator<'a, elf::endian::AnyEndian>,
}

/// A section header of the `elf` crate: the numbers that the section header
/// table holds for one section.
#[verifier::external_type_specification]
pub struct ExSectionHeader(elf::section::SectionHeader);

/// The `elf` crate's account of why it could not read an object.
#[verifier::external_type_specification]
#[verifier::external_body]
pub struct ExParseError(elf::ParseError);

/// A note of an object file, as the `elf` crate tells notes apart.
#[derive(Debug)]
pub enum ElfNote {
    /// The GNU note of the ABI that the object needs.
    GnuAbiTag,
    /// The GNU note of the build's identity.
    GnuBuildId,
    /// Any other note, with its raw fields.
    Unknown { n_type: u64, name: String, desc: Vec<u8> },
}

/// The mathematical content of an [`ElfNote`].
pub enum ElfNoteView {
    GnuAbiTag,
    GnuBuildId,
    Unknown { n_type: u64, name: Seq<char>, desc: Seq<u8> },
}

impl View for ElfNote {
    type V = ElfNoteView;

    open spec fn view(&self) -> ElfNoteView {
        match self {
            ElfNote::GnuAbiTag => ElfNoteView::GnuAbiTag,
            ElfNote::GnuBuildId => ElfNoteView::GnuBuildId,
            ElfNote::Unknown { n_type, name, desc } => ElfNoteView::Unknown {
                n_type: *n_type,
                name: name@,
                desc: desc@,
            },
        }
    }
}

/// Whether `ElfBytes::minimal_parse` accepts `data` as an object file.
pub uninterp spec fn elf_parses(data: Seq<u8>) -> bool;

/// The bytes that an opened object file was opened on.
pub uninterp spec fn elf_image(file: ElfFile<'_>) -> Seq<u8>;

/// What `ElfBytes::section_header_by_name` finds for `name` in the object
/// `data`: nothing where the crate reports an error, else the header of the
/// section of that name, if there is one.
pub uninterp spec fn elf_section(data: Seq<u8>, name: Seq<char>) -> Option<
    Option<elf::section::SectionHeader>,
>;

/// The notes that `ElfBytes::section_data_as_notes` yields for the section
/// `section` of the object `data`, in their order; nothing where the crate
/// reports an error.
pub uninterp spec fn elf_notes(data: Seq<u8>, section: elf::section::SectionHeader) -> Option<
    Seq<ElfNoteView>,
>;

/// The notes that a walk has yet to yield before it first ends.
pub uninterp spec fn pending_notes(cursor: NoteCursor<'_>) -> Seq<ElfNoteView>;

/// Opens `data` as an object file, by `ElfBytes::minimal_parse`. The crate
/// accepts or refuses the bytes by their content alone, and the handle it
/// gives reads from these bytes.
#[verifier::external_body]
fn elf_open<'a>(data: &'a [u8]) -> (r: Result<ElfFile<'a>, elf::ParseError>)
    ensures
        r is Ok <==> elf_parses(data@),
        r matches Ok(file) ==> elf_image(file) == data@,
{
    match elf::ElfBytes::<elf::endian::AnyEndian>::minimal_parse(data) {
        Ok(inner) => Ok(ElfFile { inner }),
        Err(e) => Err(e),
    }
}

/// Looks a section up by its name, by `ElfBytes::section_header_by_name`.
/// The outcome depends on the object's bytes and the name alone.
#[verifier::external_body]
fn elf_find_section(file: &ElfFile<'_>, name: &str) -> (r: Result<
    Option<elf::section::SectionHeader>,
    elf::ParseError,
>)
    ensures
        match elf_section(elf_image(*file), name@) {
            Some(found) => r == Ok::<Option<elf::section::SectionHeader>, elf::ParseError>(found),
            None => r is Err,
        },
{
    file.inner.section_header_by_name(name)
}

/// Begins a walk over the notes of a section, by
/// `ElfBytes::section_data_as_notes`. The notes that the walk will yield
/// depend on the object's bytes and the section header alone.
#[verifier::external_body]
fn elf_walk_notes<'a>(file: &ElfFile<'a>, section: &elf::section::SectionHeader) -> (r: Result<
    NoteCursor<'a>,
    elf::ParseError,
>)
    ensures
        match elf_notes(elf_image(*file), *section) {
            Some(notes) => r matches Ok(cursor) && pending_notes(cursor) == notes,
            None => r is Err,
        },
{
    match file.inner.section_data_as_notes(section) {
        Ok(inner) => Ok(NoteCursor { inner }),
        Err(e) => Err(e),
    }
}

/// Takes the next note of a walk, by `NoteIterator::next`. While notes are
/// pending the first of them comes out and the rest stay pending; when none
/// is pending the walk ends.
#[verifier::external_body]
fn elf_next_note(cursor: &mut NoteCursor<'_>) -> (r: Option<ElfNote>)
    ensures
        match r {
            Some(note) => {
                &&& pending_notes(*old(cursor)).len() > 0
                &&& note@ == pending_notes(*old(cursor))[0]
                &&& pending_notes(*final(cursor)) == pending_notes(*old(cursor)).drop_first()
            },
            None => pending_notes(*old(cursor)).len() == 0,
        },
{
    match cursor.inner.next() {
        Some(elf::note::Note::GnuAbiTag(_)) => Some(ElfNote::GnuAbiTag),
        Some(elf::note::Note::GnuBuildId(_)) => Some(ElfNote::GnuBuildId),
        Some(elf::note::Note::Unknown(n)) => Some(
            ElfNote::Unknown { n_type: n.n_type, name: n.name.to_string(), desc: n.desc.to_vec() },
        ),
        None => None,
    }
}

/// The section that holds the device information.
pub const DEVICE_INFO_SECTION: &'static str = ".note.gnu.avr.deviceinfo";

/// The vendor that owns the device information note.
pub const DEVICE_INFO_VENDOR: &'static str = "AVR";

/// The type of the device information note.
pub const DEVICE_INFO_TYPE: u64 = 1;

/// The views of a list of notes.
pub open spec fn notes_view(notes: Seq<ElfNote>) -> Seq<ElfNoteView> {
    Seq::new(notes.len(), |i: int| notes[i]@)
}

/// The notes of the section `section` of the object `data`, or why the
/// object does not give them.
pub open spec fn notes_of(data: Seq<u8>, section: Seq<char>) -> Result<
    Seq<ElfNoteView>,
    DeviceInfoError,
> {
    if !elf_parses(data) {
        Err(DeviceInfoError::MalformedObject)
    } else {
        match elf_section(data, section) {
            None => Err(DeviceInfoError::MalformedObject),
            Some(None) => Err(DeviceInfoError::SectionNotFound),
            Some(Some(header)) => match elf_notes(data, header) {
                None => Err(DeviceInfoError::MalformedObject),
                Some(notes) => Ok(notes),
            },
        }
    }
}

/// `note` is a device information note: of the vendor, with the expected
/// type.
pub open spec fn is_device_note(note: ElfNoteView) -> bool {
    match note {
        ElfNoteView::Unknown { n_type, name, desc } => n_type == DEVICE_INFO_TYPE && name
            == DEVICE_INFO_VENDOR@,
        _ => false,
    }
}

/// `i` is the position of the first device information note in `notes`.
pub open spec fn is_first_device_note(notes: Seq<ElfNoteView>, i: int) -> bool {
    &&& 0 <= i < notes.len()
    &&& is_device_note(notes[i])
    &&& forall|j: int| 0 <= j < i ==> !is_device_note(#[trigger] notes[j])
}

/// What `notes` say of the device: what the descriptor of the first device
/// information note says, if there is such a note.
pub open spec fn device_info_in(notes: Seq<ElfNoteView>) -> Result<DeviceInfoView, DeviceInfoError> {
    if exists|i: int| is_first_device_note(notes, i) {
        device_info_of(notes[choose|i: int| is_first_device_note(notes, i)]->desc)
    } else {
        Err(DeviceInfoError::NoteNotFound)
    }
}

/// What the object `data` says of the device it was built for.
pub open spec fn device_info_of_binary(data: Seq<u8>) -> Result<DeviceInfoView, DeviceInfoError> {
    match notes_of(data, DEVICE_INFO_SECTION@) {
        Ok(notes) => device_info_in(notes),
        Err(e) => Err(e),
    }
}

/// The name of the device that the object `data` was built for.
pub open spec fn device_name_of_binary(data: Seq<u8>) -> Result<Seq<char>, DeviceInfoError> {
    match device_info_of_binary(data) {
        Ok(info) => Ok(info.name),
        Err(e) => Err(e),
    }
}

/// Reads all notes of the section `section` of the object `data`.
pub fn read_notes(data: &[u8], section: &str) -> (r: Result<Vec<ElfNote>, DeviceInfoError>)
    ensures
        match r {
            Ok(notes) => notes_of(data@, section@) == Ok::<Seq<ElfNoteView>, DeviceInfoError>(
                notes_view(notes@),
            ),
            Err(e) => notes_of(data@, section@) == Err::<Seq<ElfNoteView>, DeviceInfoError>(e),
        },
{
    let file = match elf_open(data) {
        Ok(file) => file,
        Err(_) => {
            return Err(DeviceInfoError::MalformedObject);
        },
    };
    let header = match elf_find_section(&file, section) {
        Ok(Some(header)) => header,
        Ok(None) => {
            return Err(DeviceInfoError::SectionNotFound);
        },
        Err(_) => {
            return Err(DeviceInfoError::MalformedObject);
        },
    };
    let mut cursor = match elf_walk_notes(&file, &header) {
        Ok(cursor) => cursor,
        Err(_) => {
            return Err(DeviceInfoError::MalformedObject);
        },
    };
    let ghost all = pending_notes(cursor);
    let mut notes: Vec<ElfNote> = Vec::new();
    loop
        invariant_except_break
            all == notes_view(notes@) + pending_notes(cursor),
        ensures
            all == notes_view(notes@),
        decreases pending_notes(cursor).len(),
    {
        let ghost before = pending_notes(cursor);
        match elf_next_note(&mut cursor) {
            Some(note) => {
                notes.push(note);
                assert(notes_view(notes@) + pending_notes(cursor) =~= all) by {
                    assert(before =~= seq![before[0]] + before.drop_first());
                }
            },
            None => {
                assert(all =~= notes_view(notes@));
                break ;
            },
        }
    }
    Ok(notes)
}

/// Finds the first device information note among `notes` and reads the
/// device information out of its descriptor.
pub fn device_info_from_notes(notes: &Vec<ElfNote>) -> (r: Result<DeviceInfo, DeviceInfoError>)
    ensures
        view_device_result(r) == device_info_in(notes_view(notes@)),
{
    let vendor = String::from_str(DEVICE_INFO_VENDOR);
    let mut i: usize = 0;
    while i < notes.len()
        invariant
            i <= notes.len(),
            vendor@ == DEVICE_INFO_VENDOR@,
            forall|j: int| 0 <= j < i ==> !is_device_note(#[trigger] notes_view(notes@)[j]),
        decreases notes.len() - i,
    {
        assert(notes_view(notes@)[i as int] == notes@[i as int]@);
        match &notes[i] {
            ElfNote::Unknown { n_type, name, desc } => {
                if *n_type == DEVICE_INFO_TYPE && *name == vendor {
                    assert(is_first_device_note(notes_view(notes@), i as int));
                    return parse_device_info(desc.as_slice());
                }
            },
            _ => {},
        }
        i += 1;
    }
    assert(forall|k: int| !is_first_device_note(notes_view(notes@), k));
    Err(DeviceInfoError::NoteNotFound)
}

/// Reads the device information out of a compiled binary, given as the
/// bytes of the object file.
pub fn device_info_from_binary(data: &[u8]) -> (r: Result<DeviceInfo, DeviceInfoError>)
    ensures
        view_device_result(r) == device_info_of_binary(data@),
{
    match read_notes(data, DEVICE_INFO_SECTION) {
        Ok(notes) => device_info_from_notes(&notes),
        Err(e) => Err(e),
    }
}

/// The name of the device that a compiled binary was built for, given the
/// bytes of the object file.
pub fn device_name_from_binary(data: &[u8]) -> (r: Result<String, DeviceInfoError>)
    ensures
        match r {
            Ok(name) => device_name_of_binary(data@) == Ok::<Seq<char>, DeviceInfoError>(name@),
            Err(e) => device_name_of_binary(data@) == Err::<Seq<char>, DeviceInfoError>(e),
        },
{
    match device_info_from_binary(data) {
        Ok(info) => Ok(info.name),
        Err(e) => Err(e),
    }
}

/// What is said of a binary that is no object file.
pub const MALFORMED_OBJECT: &'static str = "binary is not a well-formed ELF object";

/// What is said of an object without the device information section.
pub const SECTION_NOT_FOUND: &'static str = "AVR device info section not found";

/// What is said of a section without the device information note.
pub const NOTE_NOT_FOUND: &'static str = "AVR device info note not found";

/// What is said of a descriptor that cannot be read.
pub const MALFORMED_DESCRIPTOR: &'static str = "AVR device info note is malformed";

/// What is said of a device name that is no text.
pub const INVALID_NAME: &'static str = "AVR device name is not valid UTF-8";

impl DeviceInfoError {
    /// The error in words.
    pub fn message(&self) -> (r: String)
        ensures
            r@ == match *self {
                DeviceInfoError::MalformedObject => MALFORMED_OBJECT@,
                DeviceInfoError::SectionNotFound => SECTION_NOT_FOUND@,
                DeviceInfoError::NoteNotFound => NOTE_NOT_FOUND@,
                DeviceInfoError::MalformedDescriptor => MALFORMED_DESCRIPTOR@,
                DeviceInfoError::InvalidName => INVALID_NAME@,
            },
    {
        match self {
            DeviceInfoError::MalformedObject => String::from_str(MALFORMED_OBJECT),
            DeviceInfoError::SectionNotFound => String::from_str(SECTION_NOT_FOUND),
            DeviceInfoError::NoteNotFound => String::from_str(NOTE_NOT_FOUND),
            DeviceInfoError::MalformedDescriptor => String::from_str(MALFORMED_DESCRIPTOR),
            DeviceInfoError::InvalidName => String::from_str(INVALID_NAME),
        }
    }
}

} // verus!
