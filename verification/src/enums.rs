use vstd::prelude::*;

verus! {

/// The kind of an adapter.
#[derive(Clone, Copy, PartialEq, Eq, Structural, Debug)]
pub enum AdapterType {
    Dedicated,
    Integrated,
    Virtual,
    Cpu,
    Unknown,
}

} // verus!
