use vstd::prelude::*;

verus! {

/// The instruction sets a decoder can be asked for.
#[derive(Clone, Copy, Debug, PartialEq, Eq, Structural)]
pub enum Architecture {
    Arm64,
}

} // verus!
