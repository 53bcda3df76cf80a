//! Parts of the RequestResponse message.
use vstd::prelude::*;

verus! {

/// Whether a request succeeded, with the server's status code.
#[derive(Debug, Clone)]
pub struct RequestStatus {
    pub result: bool,
    pub code: i32,
    pub comment: Option<String>,
}

impl View for RequestStatus {
    type V = (bool, i32, Option<Seq<char>>);

    open spec fn view(&self) -> (bool, i32, Option<Seq<char>>) {
        (
            self.result,
            self.code,
            match self.comment {
                Some(c) => Some(c@),
                None => None,
            },
        )
    }
}

/// What every response carries besides its data.
#[derive(Debug, Clone)]
pub struct InfoPart {
    pub request_type: String,
    pub request_id: String,
    pub request_status: RequestStatus,
}

impl View for InfoPart {
    type V = (Seq<char>, Seq<char>, (bool, i32, Option<Seq<char>>));

    open spec fn view(&self) -> (Seq<char>, Seq<char>, (bool, i32, Option<Seq<char>>)) {
        (self.request_type@, self.request_id@, self.request_status@)
    }
}

/// The data of a response.
#[derive(Debug, Clone)]
pub struct DataPart<T> {
    pub response_data: Option<T>,
}

} // verus!
