use vstd::prelude::*;

verus! {

/// The representation a sampled 32-bit memory word is decoded as.
#[derive(Debug, Clone, Copy, PartialEq, Eq, Structural)]
pub enum ValueType {
    Float,
    Int32,
    Uint32,
    Int16,
    Uint16,
    Int8,
    Uint8,
}

} // verus!
