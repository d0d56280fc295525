//! Chunking requests as the host takes them.
use crate::bindings::batch::map_each;
use crate::csi::chunking;
use crate::csi::chunking::{ChunkParamsView, ChunkRequestView};
use vstd::prelude::*;
use vstd::std_specs::convert::{FromSpec, FromSpecImpl};

verus! {

/// Chunking parameters at the host boundary.
#[derive(Clone, Debug, PartialEq)]
pub struct ChunkParams {
    pub model: String,
    pub max_tokens: u32,
    pub overlap: u32,
}

impl View for ChunkParams {
    type V = ChunkParamsView;

    open spec fn view(&self) -> ChunkParamsView {
        ChunkParamsView { model: self.model@, max_tokens: self.max_tokens, overlap: self.overlap }
    }
}

impl FromSpecImpl<chunking::ChunkParams> for ChunkParams {
    open spec fn obeys_from_spec() -> bool {
        true
    }

    open spec fn from_spec(value: chunking::ChunkParams) -> ChunkParams {
        ChunkParams { model: value.model, max_tokens: value.max_tokens, overlap: value.overlap }
    }
}

impl From<chunking::ChunkParams> for ChunkParams {
    /// The same parameters, as the host takes them.
    fn from(value: chunking::ChunkParams) -> (wire: ChunkParams)
        ensures
            wire@ == value@,
    {
        let chunking::ChunkParams { model, max_tokens, overlap } = value;
        ChunkParams { model, max_tokens, overlap }
    }
}

/// A chunking request at the host boundary.
#[derive(Clone, Debug, PartialEq)]
pub struct ChunkRequest {
    pub text: String,
    pub params: ChunkParams,
}

impl View for ChunkRequest {
    type V = ChunkRequestView;

    open spec fn view(&self) -> ChunkRequestView {
        ChunkRequestView { text: self.text@, params: self.params@ }
    }
}

impl FromSpecImpl<chunking::ChunkRequest> for ChunkRequest {
    open spec fn obeys_from_spec() -> bool {
        true
    }

    open spec fn from_spec(value: chunking::ChunkRequest) -> ChunkRequest {
        ChunkRequest {
            text: value.text,
            params: <ChunkParams as FromSpec<chunking::ChunkParams>>::from_spec(value.params),
        }
    }
}

impl From<chunking::ChunkRequest> for ChunkRequest {
    /// The same request, as the host takes it.
    fn from(value: chunking::ChunkRequest) -> (wire: ChunkRequest)
        ensures
            wire@ == value@,
    {
        let chunking::ChunkRequest { text, params } = value;
        ChunkRequest { text, params: ChunkParams::from(params) }
    }
}

/// The requests of a batch, as the host takes them.
pub fn chunk_requests(requests: Vec<chunking::ChunkRequest>) -> (wire: Vec<ChunkRequest>)
    ensures
        wire.len() == requests.len(),
        forall|i: int| 0 <= i < wire.len() ==> (#[trigger] wire[i])@ == requests[i]@,
{
    let convert = |request: chunking::ChunkRequest| -> (wire: ChunkRequest)
        ensures
            wire@ == request@,
        {
            ChunkRequest::from(request)
        };
    map_each(requests, convert)
}

} // verus!
