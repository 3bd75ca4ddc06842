//! A board's description, inheritance between descriptions, and the search
//! for the serial port a board is attached to.

use crate::avrdude::{prefer, view_opt_string, AvrdudeOptionsView, BoardAvrdudeOptions};
use vstd::prelude::*;
use vstd::string::StringExecFns;

verus! {

/// Whether a board resets itself when it is to be programmed.
#[derive(Clone, Copy, Debug, PartialEq, Eq, Structural)]
pub struct ResetOptions {
    pub automatic: bool,
}

/// The USB vendor and product id by which a board's serial port is known.
#[derive(Clone, Copy, Debug, PartialEq, Eq, Structural)]
pub struct BoardPortID {
    pub vid: u16,
    pub pid: u16,
}

/// What is known of a board's USB side: the ids to look for, or the reason
/// why its port cannot be found by looking.
#[derive(Debug)]
pub enum BoardUSBInfo {
    PortIds(Vec<BoardPortID>),
    Error(String),
}

/// The mathematical content of a [`BoardUSBInfo`].
pub enum UsbInfoView {
    PortIds(Seq<BoardPortID>),
    Error(Seq<char>),
}

impl View for BoardUSBInfo {
    type V = UsbInfoView;

    open spec fn view(&self) -> UsbInfoView {
        match self {
            BoardUSBInfo::PortIds(ids) => UsbInfoView::PortIds(ids@),
            BoardUSBInfo::Error(msg) => UsbInfoView::Error(msg@),
        }
    }
}

/// A named, possibly partial description of a board.
#[derive(Debug)]
pub struct BoardConfig {
    pub name: Option<String>,
    pub inherit: Option<String>,
    pub reset: Option<ResetOptions>,
    pub avrdude: Option<BoardAvrdudeOptions>,
    pub usb_info: Option<BoardUSBInfo>,
}

/// The mathematical content of a [`BoardConfig`].
pub struct BoardConfigView {
    pub name: Option<Seq<char>>,
    pub inherit: Option<Seq<char>>,
    pub reset: Option<ResetOptions>,
    pub avrdude: Option<AvrdudeOptionsView>,
    pub usb_info: Option<UsbInfoView>,
}

impl BoardConfigView {
    /// The description with nothing in it.
    pub open spec fn empty() -> BoardConfigView {
        BoardConfigView { name: None, inherit: None, reset: None, avrdude: None, usb_info: None }
    }

    /// Usable at run time: a name, reset behaviour and complete flashing
    /// options are present, and no inheritance is left to resolve.
    pub open spec fn is_complete(self) -> bool {
        &&& self.name is Some
        &&& self.inherit is None
        &&& self.reset is Some
        &&& self.avrdude matches Some(a) && a.is_complete()
    }

    /// This description laid over `base`. A field keeps its value where it
    /// has one and takes `base`'s otherwise; `inherit` is cleared. The
    /// flashing options are merged field by field when both sides have them;
    /// when only this side has them they are lost, and `base`'s absence stays.
    pub open spec fn merge(self, base: BoardConfigView) -> BoardConfigView {
        BoardConfigView {
            name: prefer(self.name, base.name),
            inherit: None,
            reset: prefer(self.reset, base.reset),
            avrdude: match self.avrdude {
                Some(own) => match base.avrdude {
                    Some(inherited) => Some(own.merge(inherited)),
                    None => None,
                },
                None => base.avrdude,
            },
            usb_info: prefer(self.usb_info, base.usb_info),
        }
    }
}

impl View for BoardConfig {
    type V = BoardConfigView;

    open spec fn view(&self) -> BoardConfigView {
        BoardConfigView {
            name: view_opt_string(self.name),
            inherit: view_opt_string(self.inherit),
            reset: self.reset,
            avrdude: match self.avrdude {
                Some(a) => Some(a@),
                None => None,
            },
            usb_info: match self.usb_info {
                Some(u) => Some(u@),
                None => None,
            },
        }
    }
}

impl Default for BoardConfig {
    fn default() -> (r: BoardConfig)
        ensures
            r@ == BoardConfigView::empty(),
    {
        BoardConfig { name: None, inherit: None, reset: None, avrdude: None, usb_info: None }
    }
}

impl BoardConfig {
    /// Lays this description over `base`, as [`BoardConfigView::merge`] says.
    pub fn merge(self, base: BoardConfig) -> (r: BoardConfig)
        ensures
            r@ == self@.merge(base@),
    {
        BoardConfig {
            name: match self.name {
                Some(n) => Some(n),
                None => base.name,
            },
            inherit: None,
            reset: match self.reset {
                Some(r) => Some(r),
                None => base.reset,
            },
            avrdude: match self.avrdude {
                Some(own) => match base.avrdude {
                    Some(inherited) => Some(own.merge(inherited)),
                    None => None,
                },
                None => base.avrdude,
            },
            usb_info: match self.usb_info {
                Some(u) => Some(u),
                None => base.usb_info,
            },
        }
    }

    /// Whether this description can be used at run time.
    pub fn is_complete(&self) -> (r: bool)
        ensures
            r == self@.is_complete(),
    {
        let avrdude_complete = match &self.avrdude {
            Some(a) => a.programmer.is_some() && a.partno.is_some() && a.baudrate.is_some()
                && a.do_chip_erase.is_some(),
            None => false,
        };
        self.name.is_some() && self.inherit.is_none() && self.reset.is_some() && avrdude_complete
    }
}

/// A serial port that the host shows, with its USB ids where it is backed
/// by a USB device.
#[derive(Debug)]
pub struct DetectedPort {
    pub port_name: String,
    pub usb_id: Option<BoardPortID>,
}

/// Why no port could be chosen for a board.
#[derive(Debug)]
pub enum PortError {
    /// The board says itself that its port cannot be found by looking.
    Undetectable(String),
    /// The board names USB ids and no attached port has one of them.
    NotFound,
}

/// `port` is backed by a USB device whose ids are among `ids`.
pub open spec fn port_matches(ids: Seq<BoardPortID>, port: DetectedPort) -> bool {
    port.usb_id matches Some(id) && ids.contains(id)
}

/// `i` is the first position in `ports` of a port that matches `ids`.
pub open spec fn is_first_match(ids: Seq<BoardPortID>, ports: Seq<DetectedPort>, i: int) -> bool {
    &&& 0 <= i < ports.len()
    &&& port_matches(ids, ports[i])
    &&& forall|j: int| 0 <= j < i ==> !port_matches(ids, #[trigger] ports[j])
}

/// No port in `ports` matches `ids`.
pub open spec fn no_match(ids: Seq<BoardPortID>, ports: Seq<DetectedPort>) -> bool {
    forall|j: int| 0 <= j < ports.len() ==> !port_matches(ids, #[trigger] ports[j])
}

/// `outcome` is the port named `name`.
pub open spec fn is_port(outcome: Option<Result<String, PortError>>, name: Seq<char>) -> bool {
    match outcome {
        Some(Ok(n)) => n@ == name,
        _ => false,
    }
}

/// `outcome` is the refusal that carries the board's own message `msg`.
pub open spec fn is_undetectable(outcome: Option<Result<String, PortError>>, msg: Seq<char>) -> bool {
    match outcome {
        Some(Err(PortError::Undetectable(m))) => m@ == msg,
        _ => false,
    }
}

/// Whether the search for a board's port looks at the host's ports: it
/// does where the board names USB ids.
pub open spec fn searches_ports(usb_info: Option<UsbInfoView>) -> bool {
    usb_info matches Some(UsbInfoView::PortIds(_))
}

/// `outcome` is what the search for a board's port gives when the host shows
/// `ports`, in that order: nothing for a board without USB information, the
/// board's own message where it has one, else the name of the first port
/// with one of the board's ids, else that none was found.
pub open spec fn is_guess_among(
    usb_info: Option<UsbInfoView>,
    ports: Seq<DetectedPort>,
    outcome: Option<Result<String, PortError>>,
) -> bool {
    match usb_info {
        None => outcome is None,
        Some(UsbInfoView::Error(msg)) => is_undetectable(outcome, msg),
        Some(UsbInfoView::PortIds(ids)) => {
            ||| no_match(ids, ports) && outcome == Some(
                Err::<String, PortError>(PortError::NotFound),
            )
            ||| exists|i: int| #[trigger]
                is_first_match(ids, ports, i) && is_port(outcome, ports[i].port_name@)
        },
    }
}

/// Whether `id` is one of `ids`.
pub fn has_port_id(ids: &Vec<BoardPortID>, id: BoardPortID) -> (r: bool)
    ensures
        r == ids@.contains(id),
{
    let mut k: usize = 0;
    while k < ids.len()
        invariant
            k <= ids.len(),
            forall|j: int| 0 <= j < k ==> ids@[j] != id,
        decreases ids.len() - k,
    {
        if ids[k].vid == id.vid && ids[k].pid == id.pid {
            return true;
        }
        k += 1;
    }
    false
}

/// The position of the first port in `ports` that carries one of `ids`.
pub fn find_port(ids: &Vec<BoardPortID>, ports: &Vec<DetectedPort>) -> (r: Option<usize>)
    ensures
        r matches Some(i) ==> is_first_match(ids@, ports@, i as int),
        r is None ==> no_match(ids@, ports@),
{
    let mut i: usize = 0;
    while i < ports.len()
        invariant
            i <= ports.len(),
            forall|j: int| 0 <= j < i ==> !port_matches(ids@, #[trigger] ports@[j]),
        decreases ports.len() - i,
    {
        let hit = match ports[i].usb_id {
            Some(id) => has_port_id(ids, id),
            None => false,
        };
        if hit {
            return Some(i);
        }
        i += 1;
    }
    None
}

impl BoardConfig {
    /// Whether the search for this board's port looks at the host's ports
    /// at all: it does where the board names USB ids.
    pub fn needs_port_search(&self) -> (r: bool)
        ensures
            r == searches_ports(self@.usb_info),
    {
        match &self.usb_info {
            Some(BoardUSBInfo::PortIds(_)) => true,
            _ => false,
        }
    }

    /// Searches `ports`, the serial ports that the host shows, in their
    /// order, for this board's port.
    pub fn guess_port(&self, ports: &Vec<DetectedPort>) -> (r: Option<Result<String, PortError>>)
        ensures
            is_guess_among(self@.usb_info, ports@, r),
    {
        match &self.usb_info {
            None => None,
            Some(BoardUSBInfo::Error(msg)) => Some(Err(PortError::Undetectable(msg.clone()))),
            Some(BoardUSBInfo::PortIds(ids)) => {
                match find_port(ids, ports) {
                    Some(i) => Some(Ok(ports[i].port_name.clone())),
                    None => Some(Err(PortError::NotFound)),
                }
            },
        }
    }
}

/// Where a board names no USB ids, the search for its port comes out the
/// same whatever ports the host shows.
pub proof fn lemma_guess_without_ids_ignores_ports(
    usb_info: Option<UsbInfoView>,
    ports: Seq<DetectedPort>,
    others: Seq<DetectedPort>,
    outcome: Option<Result<String, PortError>>,
)
    requires
        !searches_ports(usb_info),
        is_guess_among(usb_info, ports, outcome),
    ensures
        is_guess_among(usb_info, others, outcome),
{
}

/// Where some port up to position `k` matches, one of them is the first.
pub proof fn lemma_first_match(ids: Seq<BoardPortID>, ports: Seq<DetectedPort>, k: int)
    requires
        0 <= k < ports.len(),
        port_matches(ids, ports[k]),
    ensures
        exists|i: int| is_first_match(ids, ports, i),
    decreases k,
{
    if exists|j: int| 0 <= j < k && port_matches(ids, #[trigger] ports[j]) {
        let j = choose|j: int| 0 <= j < k && port_matches(ids, #[trigger] ports[j]);
        lemma_first_match(ids, ports, j);
    } else {
        assert(is_first_match(ids, ports, k));
    }
}

/// Whatever ports the host shows, the search of a board that names USB ids
/// has an outcome.
pub proof fn lemma_search_has_an_outcome(ids: Seq<BoardPortID>, ports: Seq<DetectedPort>)
    ensures
        exists|outcome: Option<Result<String, PortError>>|
            is_guess_among(Some(UsbInfoView::PortIds(ids)), ports, outcome),
{
    let usb_info = Some(UsbInfoView::PortIds(ids));
    if no_match(ids, ports) {
        assert(is_guess_among(usb_info, ports, Some(Err(PortError::NotFound))));
    } else {
        let k = choose|k: int| 0 <= k < ports.len() && port_matches(ids, #[trigger] ports[k]);
        lemma_first_match(ids, ports, k);
        let i = choose|i: int| is_first_match(ids, ports, i);
        let outcome: Option<Result<String, PortError>> = Some(Ok(ports[i].port_name));
        assert(is_first_match(ids, ports, i) && is_port(outcome, ports[i].port_name@));
        assert(is_guess_among(usb_info, ports, outcome));
    }
}

/// The two outcomes of a search say the same: both nothing, the same port,
/// or the same failure.
pub open spec fn same_outcome(
    one: Option<Result<String, PortError>>,
    other: Option<Result<String, PortError>>,
) -> bool {
    match (one, other) {
        (None, None) => true,
        (Some(Ok(a)), Some(Ok(b))) => a@ == b@,
        (Some(Err(PortError::NotFound)), Some(Err(PortError::NotFound))) => true,
        (Some(Err(PortError::Undetectable(a))), Some(Err(PortError::Undetectable(b)))) => a@
            == b@,
        _ => false,
    }
}

/// The search for a board's port among given ports has one outcome.
pub proof fn lemma_guess_is_determined(
    usb_info: Option<UsbInfoView>,
    ports: Seq<DetectedPort>,
    one: Option<Result<String, PortError>>,
    other: Option<Result<String, PortError>>,
)
    requires
        is_guess_among(usb_info, ports, one),
        is_guess_among(usb_info, ports, other),
    ensures
        same_outcome(one, other),
{
    if let Some(UsbInfoView::PortIds(ids)) = usb_info {
        if !no_match(ids, ports) {
            let i = choose|i: int| #[trigger]
                is_first_match(ids, ports, i) && is_port(one, ports[i].port_name@);
            let j = choose|j: int| #[trigger]
                is_first_match(ids, ports, j) && is_port(other, ports[j].port_name@);
            assert(i == j);
        }
    }
}

/// `own` is present wherever `inherited` is.
pub open spec fn covers_field<T>(own: Option<T>, inherited: Option<T>) -> bool {
    inherited is Some ==> own is Some
}

/// `child` has every field that `base` has, in the flashing options too
/// where both have them.
pub open spec fn covers(child: BoardConfigView, base: BoardConfigView) -> bool {
    &&& covers_field(child.name, base.name)
    &&& covers_field(child.reset, base.reset)
    &&& covers_field(child.usb_info, base.usb_info)
    &&& covers_field(child.avrdude, base.avrdude)
    &&& (child.avrdude matches Some(own) && base.avrdude matches Some(inherited) ==> {
        &&& covers_field(own.programmer, inherited.programmer)
        &&& covers_field(own.partno, inherited.partno)
        &&& covers_field(own.baudrate, inherited.baudrate)
        &&& covers_field(own.do_chip_erase, inherited.do_chip_erase)
    })
}

/// A child that has every field its base has, and names nothing to
/// inherit from, comes out of the merge unchanged. The one base left out is
/// the base without flashing options under a child that has them: there
/// the child's are lost.
pub proof fn lemma_merge_keeps_covering_child(child: BoardConfigView, base: BoardConfigView)
    requires
        covers(child, base),
        child.inherit is None,
        child.avrdude is Some ==> base.avrdude is Some,
    ensures
        child.merge(base) == child,
{
}

/// A child that has every field, with complete flashing options, and names
/// nothing to inherit from, comes out of the merge unchanged, whatever the
/// base holds besides flashing options of its own.
pub proof fn lemma_merge_keeps_full_child(child: BoardConfigView, base: BoardConfigView)
    requires
        child.is_complete(),
        child.usb_info is Some,
        base.avrdude is Some,
    ensures
        child.merge(base) == child,
{
}

/// Merging over the same base a second time changes nothing.
pub proof fn lemma_merge_idempotent(child: BoardConfigView, base: BoardConfigView)
    ensures
        child.merge(base).merge(base) == child.merge(base),
{
}

/// Flashing options are inherited only where both sides have them: a child
/// that has them, over a base that has none, ends up with none.
pub proof fn lemma_merge_drops_unbacked_avrdude(child: BoardConfigView, base: BoardConfigView)
    requires
        child.avrdude is Some,
        base.avrdude is None,
    ensures
        child.merge(base).avrdude is None,
{
}

/// A merged description inherits from nothing, and is complete wherever
/// the base is complete.
pub proof fn lemma_merge_over_complete_base(child: BoardConfigView, base: BoardConfigView)
    requires
        base.is_complete(),
    ensures
        child.merge(base).inherit is None,
        child.merge(base).is_complete(),
{
}

/// What is said where no attached port has one of the board's ids.
pub const PORT_NOT_FOUND: &'static str = "Serial port not found.";

/// The words for a failed search.
pub open spec fn port_message(e: PortError) -> Seq<char> {
    match e {
        PortError::Undetectable(msg) => msg@,
        PortError::NotFound => PORT_NOT_FOUND@,
    }
}

impl PortError {
    /// The error in words: the board's own message, or that no port was
    /// found.
    pub fn message(&self) -> (r: String)
        ensures
            r@ == port_message(*self),
    {
        match self {
            PortError::Undetectable(msg) => msg.clone(),
            PortError::NotFound => String::from_str(PORT_NOT_FOUND),
        }
    }
}

} // verus!
