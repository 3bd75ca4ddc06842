//! The built-in catalog of boards.

pub mod config;

use crate::avrdude::{AvrdudeOptionsView, Baudrate, BoardAvrdudeOptions};
use config::{BoardConfig, BoardConfigView, BoardPortID, BoardUSBInfo, ResetOptions, UsbInfoView};
use vstd::prelude::*;
use vstd::string::StringExecFns;

verus! {

/// The view of a complete catalog entry with the given contents. A
/// `baudrate` of zero stands for a board that is flashed without a baud rate.
pub open spec fn entry_view(
    name: Seq<char>,
    automatic: bool,
    programmer: Seq<char>,
    partno: Seq<char>,
    baudrate: u32,
    do_chip_erase: bool,
    usb_info: Option<UsbInfoView>,
) -> BoardConfigView {
    BoardConfigView {
        name: Some(name),
        inherit: None,
        reset: Some(ResetOptions { automatic }),
        avrdude: Some(
            AvrdudeOptionsView {
                programmer: Some(programmer),
                partno: Some(partno),
                baudrate: Some(
                    if baudrate == 0 {
                        None
                    } else {
                        Some(baudrate)
                    },
                ),
                do_chip_erase: Some(do_chip_erase),
            },
        ),
        usb_info,
    }
}

/// Builds the catalog entry that [`entry_view`] describes.
fn entry(
    name: &str,
    automatic: bool,
    programmer: &str,
    partno: &str,
    baudrate: u32,
    do_chip_erase: bool,
    usb_info: Option<BoardUSBInfo>,
) -> (r: BoardConfig)
    ensures
        r@ == entry_view(
            name@,
            automatic,
            programmer@,
            partno@,
            baudrate,
            do_chip_erase,
            match usb_info {
                Some(u) => Some(u@),
                None => None,
            },
        ),
{
    BoardConfig {
        name: Some(String::from_str(name)),
        inherit: None,
        reset: Some(ResetOptions { automatic }),
        avrdude: Some(
            BoardAvrdudeOptions {
                programmer: Some(String::from_str(programmer)),
                partno: Some(String::from_str(partno)),
                baudrate: Some(Baudrate::new(baudrate)),
                do_chip_erase: Some(do_chip_erase),
            },
        ),
        usb_info,
    }
}

/// What a board says whose serial adapter carries no ids of its own.
pub const NO_GUESS: &'static str = "Not able to guess port";

/// The catalog: each board's identifier with its description, ordered by
/// identifier.
pub open spec fn catalog() -> Seq<(Seq<char>, BoardConfigView)> {
    seq![
        ("diecimila"@, entry_view("Arduino Diecimila"@, true, "arduino"@, "atmega168"@, 19200, false, Some(UsbInfoView::Error(NO_GUESS@)))),
        ("duemilanovepriori"@, entry_view("Arduino Duemilanove Priori"@, true, "arduino"@, "atmega168"@, 19200, true, Some(UsbInfoView::Error(NO_GUESS@)))),
        ("leonardo"@, entry_view("Arduino Leonardo"@, false, "avr109"@, "atmega32u4"@, 0, true, Some(UsbInfoView::PortIds(seq![BoardPortID { vid: 0x2341, pid: 0x0036 }, BoardPortID { vid: 0x2341, pid: 0x8036 }, BoardPortID { vid: 0x2A03, pid: 0x0036 }, BoardPortID { vid: 0x2A03, pid: 0x8036 }])))),
        ("mega1280"@, entry_view("Arduino Mega 1280"@, true, "wiring"@, "atmega1280"@, 57600, false, Some(UsbInfoView::Error(NO_GUESS@)))),
        ("mega2560"@, entry_view("Arduino Mega 2560"@, true, "wiring"@, "atmega2560"@, 115200, false, Some(UsbInfoView::PortIds(seq![BoardPortID { vid: 0x2341, pid: 0x0010 }, BoardPortID { vid: 0x2341, pid: 0x0042 }, BoardPortID { vid: 0x2A03, pid: 0x0010 }, BoardPortID { vid: 0x2A03, pid: 0x0042 }, BoardPortID { vid: 0x2341, pid: 0x0210 }, BoardPortID { vid: 0x2341, pid: 0x0242 }])))),
        ("micro"@, entry_view("Arduino Micro"@, false, "avr109"@, "atmega32u4"@, 115200, true, Some(UsbInfoView::PortIds(seq![BoardPortID { vid: 0x2341, pid: 0x0037 }, BoardPortID { vid: 0x2341, pid: 0x8037 }, BoardPortID { vid: 0x2A03, pid: 0x0037 }, BoardPortID { vid: 0x2A03, pid: 0x8037 }, BoardPortID { vid: 0x2341, pid: 0x0237 }, BoardPortID { vid: 0x2341, pid: 0x8237 }])))),
        ("nano"@, entry_view("Arduino Nano"@, true, "arduino"@, "atmega328p"@, 57600, true, Some(UsbInfoView::Error(NO_GUESS@)))),
        ("nano-new"@, entry_view("Arduino Nano (New Bootloader)"@, true, "arduino"@, "atmega328p"@, 115200, true, Some(UsbInfoView::Error(NO_GUESS@)))),
        ("nano168"@, entry_view("Nano Clone (ATmega168)"@, true, "arduino"@, "atmega168"@, 19200, false, Some(UsbInfoView::Error(NO_GUESS@)))),
        ("promicro"@, entry_view("SparkFun Pro Micro"@, false, "avr109"@, "atmega32u4"@, 0, true, Some(UsbInfoView::PortIds(seq![BoardPortID { vid: 0x1B4F, pid: 0x9205 }, BoardPortID { vid: 0x1B4F, pid: 0x9206 }, BoardPortID { vid: 0x1B4F, pid: 0x9203 }, BoardPortID { vid: 0x1B4F, pid: 0x9204 }])))),
        ("promini-3v3"@, entry_view("SparkFun Pro Mini 3.3V (8MHz)"@, true, "arduino"@, "atmega328p"@, 57600, true, Some(UsbInfoView::Error(NO_GUESS@)))),
        ("promini-5v"@, entry_view("SparkFun Pro Mini 5V (16MHz)"@, true, "arduino"@, "atmega328p"@, 57600, true, Some(UsbInfoView::Error(NO_GUESS@)))),
        ("trinket"@, entry_view("Trinket"@, false, "usbtiny"@, "attiny85"@, 0, false, None)),
        ("trinket-pro"@, entry_view("Trinket Pro"@, false, "usbtiny"@, "atmega328p"@, 0, false, None)),
        ("uno"@, entry_view("Arduino Uno"@, true, "arduino"@, "atmega328p"@, 0, true, Some(UsbInfoView::PortIds(seq![BoardPortID { vid: 0x2341, pid: 0x0043 }, BoardPortID { vid: 0x2341, pid: 0x0001 }, BoardPortID { vid: 0x2A03, pid: 0x0043 }, BoardPortID { vid: 0x2341, pid: 0x0243 }])))),
    ]
}

/// The views of a list of boards with their identifiers.
pub open spec fn entries_view(boards: Seq<(String, BoardConfig)>) -> Seq<
    (Seq<char>, BoardConfigView),
> {
    Seq::new(boards.len(), |i: int| (boards[i].0@, boards[i].1@))
}

/// All boards of the catalog with their identifiers, in the catalog's order.
pub fn get_all_boards() -> (r: Vec<(String, BoardConfig)>)
    ensures
        entries_view(r@) == catalog(),
{
    let mut boards: Vec<(String, BoardConfig)> = Vec::new();
    boards.push((String::from_str("diecimila"), entry("Arduino Diecimila", true, "arduino", "atmega168", 19200, false, Some(BoardUSBInfo::Error(String::from_str(NO_GUESS))))));
    boards.push((String::from_str("duemilanovepriori"), entry("Arduino Duemilanove Priori", true, "arduino", "atmega168", 19200, true, Some(BoardUSBInfo::Error(String::from_str(NO_GUESS))))));
    boards.push((String::from_str("leonardo"), entry("Arduino Leonardo", false, "avr109", "atmega32u4", 0, true, Some(BoardUSBInfo::PortIds(vec![BoardPortID { vid: 0x2341, pid: 0x0036 }, BoardPortID { vid: 0x2341, pid: 0x8036 }, BoardPortID { vid: 0x2A03, pid: 0x0036 }, BoardPortID { vid: 0x2A03, pid: 0x8036 }])))));
    boards.push((String::from_str("mega1280"), entry("Arduino Mega 1280", true, "wiring", "atmega1280", 57600, false, Some(BoardUSBInfo::Error(String::from_str(NO_GUESS))))));
    boards.push((String::from_str("mega2560"), entry("Arduino Mega 2560", true, "wiring", "atmega2560", 115200, false, Some(BoardUSBInfo::PortIds(vec![BoardPortID { vid: 0x2341, pid: 0x0010 }, BoardPortID { vid: 0x2341, pid: 0x0042 }, BoardPortID { vid: 0x2A03, pid: 0x0010 }, BoardPortID { vid: 0x2A03, pid: 0x0042 }, BoardPortID { vid: 0x2341, pid: 0x0210 }, BoardPortID { vid: 0x2341, pid: 0x0242 }])))));
    boards.push((String::from_str("micro"), entry("Arduino Micro", false, "avr109", "atmega32u4", 115200, true, Some(BoardUSBInfo::PortIds(vec![BoardPortID { vid: 0x2341, pid: 0x0037 }, BoardPortID { vid: 0x2341, pid: 0x8037 }, BoardPortID { vid: 0x2A03, pid: 0x0037 }, BoardPortID { vid: 0x2A03, pid: 0x8037 }, BoardPortID { vid: 0x2341, pid: 0x0237 }, BoardPortID { vid: 0x2341, pid: 0x8237 }])))));
    boards.push((String::from_str("nano"), entry("Arduino Nano", true, "arduino", "atmega328p", 57600, true, Some(BoardUSBInfo::Error(String::from_str(NO_GUESS))))));
    boards.push((String::from_str("nano-new"), entry("Arduino Nano (New Bootloader)", true, "arduino", "atmega328p", 115200, true, Some(BoardUSBInfo::Error(String::from_str(NO_GUESS))))));
    boards.push((String::from_str("nano168"), entry("Nano Clone (ATmega168)", true, "arduino", "atmega168", 19200, false, Some(BoardUSBInfo::Error(String::from_str(NO_GUESS))))));
    boards.push((String::from_str("promicro"), entry("SparkFun Pro Micro", false, "avr109", "atmega32u4", 0, true, Some(BoardUSBInfo::PortIds(vec![BoardPortID { vid: 0x1B4F, pid: 0x9205 }, BoardPortID { vid: 0x1B4F, pid: 0x9206 }, BoardPortID { vid: 0x1B4F, pid: 0x9203 }, BoardPortID { vid: 0x1B4F, pid: 0x9204 }])))));
    boards.push((String::from_str("promini-3v3"), entry("SparkFun Pro Mini 3.3V (8MHz)", true, "arduino", "atmega328p", 57600, true, Some(BoardUSBInfo::Error(String::from_str(NO_GUESS))))));
    boards.push((String::from_str("promini-5v"), entry("SparkFun Pro Mini 5V (16MHz)", true, "arduino", "atmega328p", 57600, true, Some(BoardUSBInfo::Error(String::from_str(NO_GUESS))))));
    boards.push((String::from_str("trinket"), entry("Trinket", false, "usbtiny", "attiny85", 0, false, None)));
    boards.push((String::from_str("trinket-pro"), entry("Trinket Pro", false, "usbtiny", "atmega328p", 0, false, None)));
    boards.push((String::from_str("uno"), entry("Arduino Uno", true, "arduino", "atmega328p", 0, true, Some(BoardUSBInfo::PortIds(vec![BoardPortID { vid: 0x2341, pid: 0x0043 }, BoardPortID { vid: 0x2341, pid: 0x0001 }, BoardPortID { vid: 0x2A03, pid: 0x0043 }, BoardPortID { vid: 0x2341, pid: 0x0243 }])))));
    assert(entries_view(boards@) =~= catalog());
    boards
}

/// `i` is the first position in `entries` of an entry with identifier `id`.
pub open spec fn is_entry_at(entries: Seq<(Seq<char>, BoardConfigView)>, id: Seq<char>, i: int) -> bool {
    &&& 0 <= i < entries.len()
    &&& entries[i].0 == id
    &&& forall|j: int| 0 <= j < i ==> (#[trigger] entries[j]).0 != id
}

/// The catalog's description of the board `id`, if the catalog has one.
pub open spec fn catalog_board(id: Seq<char>) -> Option<BoardConfigView> {
    if exists|i: int| is_entry_at(catalog(), id, i) {
        Some(catalog()[choose|i: int| is_entry_at(catalog(), id, i)].1)
    } else {
        None
    }
}

/// The identifiers of the catalog, in its order.
pub open spec fn catalog_ids() -> Seq<Seq<char>> {
    Seq::new(catalog().len(), |i: int| catalog()[i].0)
}

/// The views of a list of strings.
pub open spec fn strings_view(strings: Seq<String>) -> Seq<Seq<char>> {
    Seq::new(strings.len(), |i: int| strings[i]@)
}

/// The first `count` of `lines`, each behind a line break.
pub open spec fn listed(lines: Seq<Seq<char>>, count: nat) -> Seq<char>
    decreases count,
{
    if count == 0 {
        Seq::empty()
    } else {
        listed(lines, (count - 1) as nat) + "\n"@ + lines[count - 1]
    }
}

/// The text that names an unknown board and lists the known ones.
pub open spec fn not_found_message(board: Seq<char>, valid_boards: Seq<Seq<char>>) -> Seq<char> {
    "invalid board: "@ + board + "\n"@ + "valid boards:"@ + listed(
        valid_boards,
        valid_boards.len(),
    )
}

/// The catalog has no board of the name that was asked for.
#[derive(Debug)]
pub struct BoardNotFound {
    /// The name that was asked for.
    pub board: String,
    /// The identifiers that the catalog has, in its order.
    pub valid_boards: Vec<String>,
}

impl BoardNotFound {
    /// The refusal in words: the unknown name, then every known identifier
    /// on a line of its own.
    pub fn message(&self) -> (r: String)
        ensures
            r@ == not_found_message(self.board@, strings_view(self.valid_boards@)),
    {
        let mut msg = String::from_str("invalid board: ");
        msg.append(self.board.as_str());
        msg.append("\n");
        msg.append("valid boards:");
        let ghost head = msg@;
        let ghost lines = strings_view(self.valid_boards@);
        let mut i: usize = 0;
        while i < self.valid_boards.len()
            invariant
                i <= self.valid_boards.len(),
                lines == strings_view(self.valid_boards@),
                msg@ == head + listed(lines, i as nat),
            decreases self.valid_boards.len() - i,
        {
            msg.append("\n");
            msg.append(self.valid_boards[i].as_str());
            i += 1;
            assert(msg@ =~= head + listed(lines, i as nat));
        }
        msg
    }
}

/// The catalog's description of the board `board_name`, or the refusal that
/// lists every identifier the catalog has.
pub fn get_board_from_name(board_name: &str) -> (r: Result<BoardConfig, BoardNotFound>)
    ensures
        match r {
            Ok(board) => catalog_board(board_name@) == Some(board@) && board@.is_complete(),
            Err(e) => {
                &&& catalog_board(board_name@) is None
                &&& e.board@ == board_name@
                &&& strings_view(e.valid_boards@) == catalog_ids()
            },
        },
{
    let mut all_boards = get_all_boards();
    let wanted = String::from_str(board_name);
    let mut i: usize = 0;
    while i < all_boards.len()
        invariant
            i <= all_boards.len(),
            entries_view(all_boards@) == catalog(),
            wanted@ == board_name@,
            forall|j: int| 0 <= j < i ==> (#[trigger] catalog()[j]).0 != board_name@,
        decreases all_boards.len() - i,
    {
        assert(catalog()[i as int] == (all_boards@[i as int].0@, all_boards@[i as int].1@));
        if all_boards[i].0 == wanted {
            assert(is_entry_at(catalog(), board_name@, i as int));
            proof {
                lemma_catalog_complete(i as int);
            }
            let found = all_boards.remove(i);
            return Ok(found.1);
        }
        i += 1;
    }
    assert(forall|k: int| !is_entry_at(catalog(), board_name@, k));
    let mut valid_boards: Vec<String> = Vec::new();
    let mut k: usize = 0;
    while k < all_boards.len()
        invariant
            k <= all_boards.len(),
            entries_view(all_boards@) == catalog(),
            valid_boards@.len() == k,
            forall|j: int| 0 <= j < k ==> (#[trigger] valid_boards@[j])@ == catalog()[j].0,
        decreases all_boards.len() - k,
    {
        assert(catalog()[k as int] == (all_boards@[k as int].0@, all_boards@[k as int].1@));
        valid_boards.push(all_boards[k].0.clone());
        k += 1;
    }
    assert(strings_view(valid_boards@) =~= catalog_ids());
    Err(BoardNotFound { board: wanted, valid_boards })
}

/// Every board of the catalog is complete: it has a name, says how it
/// resets, has all flashing options, and inherits from nothing.
pub proof fn lemma_catalog_complete(i: int)
    requires
        0 <= i < catalog().len(),
    ensures
        catalog()[i].1.is_complete(),
{
}

/// Whatever identifier of the catalog is asked for, the catalog gives a
/// complete description of a board.
pub proof fn lemma_catalog_lookup_complete(id: Seq<char>)
    requires
        catalog_ids().contains(id),
    ensures
        catalog_board(id) matches Some(board) && board.is_complete(),
{
    let k = choose|k: int| 0 <= k < catalog_ids().len() && catalog_ids()[k] == id;
    assert(catalog()[k].0 == id);
    lemma_first_entry(catalog(), id, k);
    let i = choose|i: int| is_entry_at(catalog(), id, i);
    lemma_catalog_complete(i);
}

/// Where some entry up to position `k` has the identifier `id`, one of them
/// is the first.
pub proof fn lemma_first_entry(entries: Seq<(Seq<char>, BoardConfigView)>, id: Seq<char>, k: int)
    requires
        0 <= k < entries.len(),
        entries[k].0 == id,
    ensures
        exists|i: int| is_entry_at(entries, id, i),
    decreases k,
{
    if exists|j: int| 0 <= j < k && (#[trigger] entries[j]).0 == id {
        let j = choose|j: int| 0 <= j < k && (#[trigger] entries[j]).0 == id;
        lemma_first_entry(entries, id, j);
    } else {
        assert(is_entry_at(entries, id, k));
    }
}

/// `a` and `b` agree on their first `k` characters, and there `a` ends
/// while `b` goes on, or `a` has the lesser character.
pub open spec fn parts_at(a: Seq<char>, b: Seq<char>, k: int) -> bool {
    &&& 0 <= k <= a.len()
    &&& k <= b.len()
    &&& forall|j: int| 0 <= j < k ==> a[j] == b[j]
    &&& if k == a.len() {
        k < b.len()
    } else {
        k < b.len() && (a[k] as u32) < (b[k] as u32)
    }
}

/// `a` stands before `b` in the order of strings.
pub open spec fn is_before(a: Seq<char>, b: Seq<char>) -> bool {
    exists|k: int| parts_at(a, b, k)
}

/// The catalog's identifiers are sorted: each stands before the next.
pub proof fn lemma_catalog_ascends(i: int)
    requires
        0 <= i,
        i + 1 < catalog_ids().len(),
    ensures
        is_before(catalog_ids()[i], catalog_ids()[i + 1]),
{
    assert(parts_at("diecimila"@, "duemilanovepriori"@, 1)) by {
        reveal_strlit("diecimila");
        reveal_strlit("duemilanovepriori");
    }
    assert(catalog_ids()[0] == "diecimila"@ && catalog_ids()[1] == "duemilanovepriori"@);
    assert(parts_at("duemilanovepriori"@, "leonardo"@, 0)) by {
        reveal_strlit("duemilanovepriori");
        reveal_strlit("leonardo");
    }
    assert(catalog_ids()[1] == "duemilanovepriori"@ && catalog_ids()[2] == "leonardo"@);
    assert(parts_at("leonardo"@, "mega1280"@, 0)) by {
        reveal_strlit("leonardo");
        reveal_strlit("mega1280");
    }
    assert(catalog_ids()[2] == "leonardo"@ && catalog_ids()[3] == "mega1280"@);
    assert(parts_at("mega1280"@, "mega2560"@, 4)) by {
        reveal_strlit("mega1280");
        reveal_strlit("mega2560");
    }
    assert(catalog_ids()[3] == "mega1280"@ && catalog_ids()[4] == "mega2560"@);
    assert(parts_at("mega2560"@, "micro"@, 1)) by {
        reveal_strlit("mega2560");
        reveal_strlit("micro");
    }
    assert(catalog_ids()[4] == "mega2560"@ && catalog_ids()[5] == "micro"@);
    assert(parts_at("micro"@, "nano"@, 0)) by {
        reveal_strlit("micro");
        reveal_strlit("nano");
    }
    assert(catalog_ids()[5] == "micro"@ && catalog_ids()[6] == "nano"@);
    assert(parts_at("nano"@, "nano-new"@, 4)) by {
        reveal_strlit("nano");
        reveal_strlit("nano-new");
    }
    assert(catalog_ids()[6] == "nano"@ && catalog_ids()[7] == "nano-new"@);
    assert(parts_at("nano-new"@, "nano168"@, 4)) by {
        reveal_strlit("nano-new");
        reveal_strlit("nano168");
    }
    assert(catalog_ids()[7] == "nano-new"@ && catalog_ids()[8] == "nano168"@);
    assert(parts_at("nano168"@, "promicro"@, 0)) by {
        reveal_strlit("nano168");
        reveal_strlit("promicro");
    }
    assert(catalog_ids()[8] == "nano168"@ && catalog_ids()[9] == "promicro"@);
    assert(parts_at("promicro"@, "promini-3v3"@, 5)) by {
        reveal_strlit("promicro");
        reveal_strlit("promini-3v3");
    }
    assert(catalog_ids()[9] == "promicro"@ && catalog_ids()[10] == "promini-3v3"@);
    assert(parts_at("promini-3v3"@, "promini-5v"@, 8)) by {
        reveal_strlit("promini-3v3");
        reveal_strlit("promini-5v");
    }
    assert(catalog_ids()[10] == "promini-3v3"@ && catalog_ids()[11] == "promini-5v"@);
    assert(parts_at("promini-5v"@, "trinket"@, 0)) by {
        reveal_strlit("promini-5v");
        reveal_strlit("trinket");
    }
    assert(catalog_ids()[11] == "promini-5v"@ && catalog_ids()[12] == "trinket"@);
    assert(parts_at("trinket"@, "trinket-pro"@, 7)) by {
        reveal_strlit("trinket");
        reveal_strlit("trinket-pro");
    }
    assert(catalog_ids()[12] == "trinket"@ && catalog_ids()[13] == "trinket-pro"@);
    assert(parts_at("trinket-pro"@, "uno"@, 0)) by {
        reveal_strlit("trinket-pro");
        reveal_strlit("uno");
    }
    assert(catalog_ids()[13] == "trinket-pro"@ && catalog_ids()[14] == "uno"@);
}

/// The order of strings is transitive.
pub proof fn lemma_before_transitive(a: Seq<char>, b: Seq<char>, c: Seq<char>)
    requires
        is_before(a, b),
        is_before(b, c),
    ensures
        is_before(a, c),
{
    let k1 = choose|k: int| parts_at(a, b, k);
    let k2 = choose|k: int| parts_at(b, c, k);
    let k = if k1 <= k2 {
        k1
    } else {
        k2
    };
    assert(parts_at(a, c, k));
}

/// No string stands before itself.
pub proof fn lemma_before_irreflexive(a: Seq<char>)
    ensures
        !is_before(a, a),
{
}

/// The catalog's identifiers are sorted: each stands before every later
/// one.
pub proof fn lemma_catalog_sorted(i: int, j: int)
    requires
        0 <= i < j < catalog_ids().len(),
    ensures
        is_before(catalog_ids()[i], catalog_ids()[j]),
    decreases j - i,
{
    lemma_catalog_ascends(j - 1);
    if i < j - 1 {
        lemma_catalog_sorted(i, j - 1);
        lemma_before_transitive(catalog_ids()[i], catalog_ids()[j - 1], catalog_ids()[j]);
    }
}

/// No identifier stands in the catalog twice: each leads to its own entry.
pub proof fn lemma_catalog_ids_distinct(i: int)
    requires
        0 <= i < catalog().len(),
    ensures
        catalog_board(catalog()[i].0) == Some(catalog()[i].1),
{
    let id = catalog()[i].0;
    assert forall|j: int| 0 <= j < i implies (#[trigger] catalog()[j]).0 != id by {
        assert(catalog_ids()[j] == catalog()[j].0 && catalog_ids()[i] == id);
        lemma_catalog_sorted(j, i);
        lemma_before_irreflexive(id);
    }
    assert(is_entry_at(catalog(), id, i));
    let found = choose|k: int| is_entry_at(catalog(), id, k);
    assert(found == i);
}

} // verus!
