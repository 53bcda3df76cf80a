//! Parts of the RequestBatch message.
use vstd::prelude::*;

verus! {

/// One request of a batch.
#[derive(Debug, Clone)]
pub struct RequestsItem<T> {
    pub request_type: String,
    pub request_id: Option<String>,
    pub request_data: Option<T>,
}

} // verus!
