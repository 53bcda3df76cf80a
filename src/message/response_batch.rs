//! Parts of the RequestBatchResponse message.
use crate::message::response::RequestStatus;
use vstd::prelude::*;

verus! {

/// What a batch response carries besides its results.
#[derive(Debug, Clone)]
pub struct InfoPart {
    pub request_id: String,
}

impl View for InfoPart {
    type V = Seq<char>;

    open spec fn view(&self) -> Seq<char> {
        self.request_id@
    }
}

/// The outcome of one request of a batch.
#[derive(Debug, Clone)]
pub struct ResultsItem<T> {
    pub request_type: String,
    pub request_id: Option<String>,
    pub request_status: RequestStatus,
    pub response_data: Option<T>,
}

/// The results of a batch.
#[derive(Debug, Clone)]
pub struct ResultsPart<T> {
    pub results: T,
}

} // verus!
