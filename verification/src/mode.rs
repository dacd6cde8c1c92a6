use vstd::prelude::*;

verus! {

/// How a decode run treats an anomaly in its input.
#[derive(Clone, Copy, Debug, PartialEq, Eq, Structural)]
pub enum Mode {
    /// The first anomaly ends the run and is returned as the error.
    Strict,
    /// Every anomaly is recorded and decoding continues with the next slot.
    Flexible,
}

} // verus!
