//! Parts of the Hello message.
use vstd::prelude::*;

verus! {

/// The challenge that the server asks the client to answer.
#[derive(Debug, Clone)]
pub struct Authentication {
    pub challenge: String,
    pub salt: String,
}

impl View for Authentication {
    /// The challenge and the salt.
    type V = (Seq<char>, Seq<char>);

    open spec fn view(&self) -> (Seq<char>, Seq<char>) {
        (self.challenge@, self.salt@)
    }
}

} // verus!
