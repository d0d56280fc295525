//! Requests to split a text into chunks that fit a model's context.
use vstd::prelude::*;

verus! {

/// What a [`ChunkParams`] holds.
pub struct ChunkParamsView {
    pub model: Seq<char>,
    pub max_tokens: u32,
    pub overlap: u32,
}

/// Chunking parameters
#[derive(Clone, Debug)]
pub struct ChunkParams {
    /// The name of the model the chunk is intended to be used for.
    /// This must be a known model.
    pub model: String,
    /// The maximum number of tokens that should be returned per chunk.
    pub max_tokens: u32,
    /// The amount of allowed overlap between chunks.
    /// The host rejects an overlap that is not less than `max_tokens`.
    pub overlap: u32,
}

impl View for ChunkParams {
    type V = ChunkParamsView;

    open spec fn view(&self) -> ChunkParamsView {
        ChunkParamsView { model: self.model@, max_tokens: self.max_tokens, overlap: self.overlap }
    }
}

impl ChunkParams {
    /// Parameters for `model` with chunks of at most `max_tokens` tokens and
    /// no overlap.
    pub fn new(model: &str, max_tokens: u32) -> (params: ChunkParams)
        ensures
            params@ == (ChunkParamsView { model: model@, max_tokens, overlap: 0 }),
    {
        ChunkParams { model: model.to_owned(), max_tokens, overlap: 0 }
    }

    /// The same parameters with the overlap replaced.
    #[must_use]
    pub fn with_overlap(self, overlap: u32) -> (params: ChunkParams)
        ensures
            params@ == (ChunkParamsView { overlap, ..self@ }),
    {
        let mut params = self;
        params.overlap = overlap;
        params
    }
}

/// What a [`ChunkRequest`] holds.
pub struct ChunkRequestView {
    pub text: Seq<char>,
    pub params: ChunkParamsView,
}

/// A text and how to chunk it.
#[derive(Clone, Debug)]
pub struct ChunkRequest {
    pub text: String,
    pub params: ChunkParams,
}

impl View for ChunkRequest {
    type V = ChunkRequestView;

    open spec fn view(&self) -> ChunkRequestView {
        ChunkRequestView { text: self.text@, params: self.params@ }
    }
}

impl ChunkRequest {
    /// The request to chunk `text` as `params` say.
    pub fn new(text: &str, params: ChunkParams) -> (request: ChunkRequest)
        ensures
            request@ == (ChunkRequestView { text: text@, params: params@ }),
    {
        ChunkRequest { text: text.to_owned(), params }
    }
}

} // verus!
