//! Requests of the batched protocol.

use vstd::prelude::*;

verus! {

/// One request of a batch.
#[allow(inconsistent_fields)]
#[derive(Debug)]
pub enum Request {
    /// The bare `VERSION` line; never part of a JSON batch.
    Version,
    Ping,
    System,
    PreferredCores,
    Hash,
    Guard { address: usize, expected_data: Vec<u8>, domain: String },
    Lock,
    Unlock,
    Read { address: usize, size: usize, domain: String },
    Write { address: usize, value: Vec<u8> },
    DisplayMessage { message: String },
    SetMessageInterval { value: u64 },
}

/// The mathematical content of a [`Request`].
#[allow(inconsistent_fields)]
pub ghost enum RequestView {
    Version,
    Ping,
    System,
    PreferredCores,
    Hash,
    Guard { address: usize, expected_data: Seq<u8>, domain: Seq<char> },
    Lock,
    Unlock,
    Read { address: usize, size: usize, domain: Seq<char> },
    Write { address: usize, value: Seq<u8> },
    DisplayMessage { message: Seq<char> },
    SetMessageInterval { value: u64 },
}

impl View for Request {
    type V = RequestView;

    open spec fn view(&self) -> RequestView {
        match *self {
            Request::Version => RequestView::Version,
            Request::Ping => RequestView::Ping,
            Request::System => RequestView::System,
            Request::PreferredCores => RequestView::PreferredCores,
            Request::Hash => RequestView::Hash,
            Request::Guard { address, expected_data, domain } => RequestView::Guard {
                address,
                expected_data: expected_data@,
                domain: domain@,
            },
            Request::Lock => RequestView::Lock,
            Request::Unlock => RequestView::Unlock,
            Request::Read { address, size, domain } => RequestView::Read {
                address,
                size,
                domain: domain@,
            },
            Request::Write { address, value } => RequestView::Write { address, value: value@ },
            Request::DisplayMessage { message } => RequestView::DisplayMessage {
                message: message@,
            },
            Request::SetMessageInterval { value } => RequestView::SetMessageInterval { value },
        }
    }
}

} // verus!
