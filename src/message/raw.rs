//! Parts of the message envelope.
use vstd::prelude::*;

verus! {

/// The opcode of an envelope.
#[derive(Debug, Clone, Copy)]
pub struct OpPart {
    pub op: i32,
}

/// The payload of an envelope.
#[derive(Debug, Clone)]
pub struct DPart<T> {
    pub d: T,
}

} // verus!
