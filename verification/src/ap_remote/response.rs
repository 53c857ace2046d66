//! Responses of the batched protocol.

use vstd::prelude::*;

verus! {

/// One response of a batch.
#[allow(inconsistent_fields)]
#[derive(Debug)]
pub enum Response {
    /// The answer to the bare `VERSION` line; sent as plain text, never as
    /// part of a JSON batch.
    Version,
    Pong,
    SystemResponse { value: String },
    /// Pairs of system and core name, ordered by system, no system twice.
    PreferredCoresResponse { value: Vec<(String, String)> },
    HashResponse { value: String },
    GuardResponse { value: bool, address: usize },
    Locked,
    Unlocked,
    ReadResponse { value: Vec<u8> },
    WriteResponse,
    DisplayMessageResponse,
    SetMessageIntervalResponse,
    Error { err: String },
}

/// The mathematical content of a [`Response`].
#[allow(inconsistent_fields)]
pub ghost enum ResponseView {
    Version,
    Pong,
    SystemResponse { value: Seq<char> },
    PreferredCoresResponse { value: Seq<(Seq<char>, Seq<char>)> },
    HashResponse { value: Seq<char> },
    GuardResponse { value: bool, address: usize },
    Locked,
    Unlocked,
    ReadResponse { value: Seq<u8> },
    WriteResponse,
    DisplayMessageResponse,
    SetMessageIntervalResponse,
    Error { err: Seq<char> },
}

impl View for Response {
    type V = ResponseView;

    open spec fn view(&self) -> ResponseView {
        match *self {
            Response::Version => ResponseView::Version,
            Response::Pong => ResponseView::Pong,
            Response::SystemResponse { value } => ResponseView::SystemResponse { value: value@ },
            Response::PreferredCoresResponse { value } => ResponseView::PreferredCoresResponse {
                value: Seq::new(value@.len(), |i: int| (value@[i].0@, value@[i].1@)),
            },
            Response::HashResponse { value } => ResponseView::HashResponse { value: value@ },
            Response::GuardResponse { value, address } => ResponseView::GuardResponse {
                value,
                address,
            },
            Response::Locked => ResponseView::Locked,
            Response::Unlocked => ResponseView::Unlocked,
            Response::ReadResponse { value } => ResponseView::ReadResponse { value: value@ },
            Response::WriteResponse => ResponseView::WriteResponse,
            Response::DisplayMessageResponse => ResponseView::DisplayMessageResponse,
            Response::SetMessageIntervalResponse => ResponseView::SetMessageIntervalResponse,
            Response::Error { err } => ResponseView::Error { err: err@ },
        }
    }
}

} // verus!
