//! Options handed to the flashing tool, and the baud rate type they share
//! with the serial console.

use vstd::prelude::*;

verus! {

/// A serial baud rate. It is never zero.
#[derive(Clone, Copy, Debug)]
pub struct Baudrate {
    value: u32,
}

impl View for Baudrate {
    type V = u32;

    closed spec fn view(&self) -> u32 {
        self.value
    }
}

impl Baudrate {
    #[verifier::type_invariant]
    spec fn nonzero(self) -> bool {
        self.value != 0
    }

    /// The baud rate `value`, unless `value` is zero.
    pub fn new(value: u32) -> (r: Option<Baudrate>)
        ensures
            value == 0 <==> r is None,
            r matches Some(b) ==> b@ == value,
    {
        if value == 0 {
            None
        } else {
            Some(Baudrate { value })
        }
    }

    /// The rate as a number, which is not zero.
    pub fn get(&self) -> (r: u32)
        ensures
            r == self@,
            r != 0,
    {
        proof {
            use_type_invariant(self);
        }
        self.value
    }
}

/// The view of an optional string: its characters, where it is present.
pub open spec fn view_opt_string(s: Option<String>) -> Option<Seq<char>> {
    match s {
        Some(s) => Some(s@),
        None => None,
    }
}

/// The view of an optional baud rate.
pub open spec fn view_opt_baud(b: Option<Baudrate>) -> Option<u32> {
    match b {
        Some(b) => Some(b@),
        None => None,
    }
}

/// `left` where it is present, else `right`: left-overrides-right on one
/// optional field.
pub open spec fn prefer<T>(left: Option<T>, right: Option<T>) -> Option<T> {
    if left is Some {
        left
    } else {
        right
    }
}

/// What the flashing tool is told about a board. Every field may be absent.
/// A present `baudrate` that holds `None` says that the tool is to be run
/// without a baud rate.
#[derive(Debug)]
pub struct BoardAvrdudeOptions {
    pub programmer: Option<String>,
    pub partno: Option<String>,
    pub baudrate: Option<Option<Baudrate>>,
    pub do_chip_erase: Option<bool>,
}

/// The mathematical content of a [`BoardAvrdudeOptions`].
pub struct AvrdudeOptionsView {
    pub programmer: Option<Seq<char>>,
    pub partno: Option<Seq<char>>,
    pub baudrate: Option<Option<u32>>,
    pub do_chip_erase: Option<bool>,
}

impl AvrdudeOptionsView {
    /// Every field is present.
    pub open spec fn is_complete(self) -> bool {
        &&& self.programmer is Some
        &&& self.partno is Some
        &&& self.baudrate is Some
        &&& self.do_chip_erase is Some
    }

    /// Field by field, this record's value where present, else `base`'s.
    pub open spec fn merge(self, base: AvrdudeOptionsView) -> AvrdudeOptionsView {
        AvrdudeOptionsView {
            programmer: prefer(self.programmer, base.programmer),
            partno: prefer(self.partno, base.partno),
            baudrate: prefer(self.baudrate, base.baudrate),
            do_chip_erase: prefer(self.do_chip_erase, base.do_chip_erase),
        }
    }
}

impl View for BoardAvrdudeOptions {
    type V = AvrdudeOptionsView;

    open spec fn view(&self) -> AvrdudeOptionsView {
        AvrdudeOptionsView {
            programmer: view_opt_string(self.programmer),
            partno: view_opt_string(self.partno),
            baudrate: match self.baudrate {
                Some(b) => Some(view_opt_baud(b)),
                None => None,
            },
            do_chip_erase: self.do_chip_erase,
        }
    }
}

impl BoardAvrdudeOptions {
    /// Merges these options over `base`: each field keeps its value where it
    /// has one and takes `base`'s otherwise.
    pub fn merge(self, base: BoardAvrdudeOptions) -> (r: BoardAvrdudeOptions)
        ensures
            r@ == self@.merge(base@),
    {
        BoardAvrdudeOptions {
            programmer: match self.programmer {
                Some(p) => Some(p),
                None => base.programmer,
            },
            partno: match self.partno {
                Some(p) => Some(p),
                None => base.partno,
            },
            baudrate: match self.baudrate {
                Some(b) => Some(b),
                None => base.baudrate,
            },
            do_chip_erase: match self.do_chip_erase {
                Some(e) => Some(e),
                None => base.do_chip_erase,
            },
        }
    }
}

/// A copy of an optional string.
pub fn clone_opt_string(s: &Option<String>) -> (r: Option<String>)
    ensures
        view_opt_string(r) == view_opt_string(*s),
{
    match s {
        Some(v) => Some(v.clone()),
        None => None,
    }
}

} // verus!
