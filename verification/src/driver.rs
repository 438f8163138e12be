//! The parts of the I/O drivers that are not I/O.
use vstd::prelude::*;

verus! {

/// A driver that prints each string it receives on standard error. Printing is done by
/// the program around the library; the driver itself holds nothing.
#[derive(PartialEq, Eq, Structural, Clone, Copy, Debug)]
pub struct EprintlnDriver;

impl EprintlnDriver {
    /// Makes the driver. It takes no arguments and has no output stream.
    pub fn new(_init: ()) -> (r: (EprintlnDriver, ()))
        ensures
            r == (EprintlnDriver, ()),
    {
        (EprintlnDriver, ())
    }
}

} // verus!
