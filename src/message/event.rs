//! Parts of the Event message.
use vstd::prelude::*;

verus! {

/// What every event carries besides its data.
#[derive(Debug, Clone)]
pub struct InfoPart {
    pub event_type: String,
    pub event_intent: u32,
}

impl View for InfoPart {
    type V = (Seq<char>, u32);

    open spec fn view(&self) -> (Seq<char>, u32) {
        (self.event_type@, self.event_intent)
    }
}

/// The data of an event.
#[derive(Debug, Clone)]
pub struct DataPart<T> {
    pub event_data: Option<T>,
}

} // verus!
