//! Contract layer between a skill and the services of its host.
//!
//! A skill is a function of two arguments: a handle on the host's services
//! (the [`Csi`] trait) and an input. The modules here hold the requests and
//! responses of those services, their counterparts at the host boundary, and
//! the entry point through which a host runs a skill on raw bytes.
pub mod bindings;
pub mod csi;
pub mod packaging;
pub mod prompt;
pub mod testing;
pub mod text;

pub use csi::chunking::{ChunkParams, ChunkRequest};
pub use csi::document_index::{
    Document, DocumentPath, FilterCondition, IndexPath, MetadataFieldValue, MetadataFilter,
    MetadataFilterCondition, Modality, ModalityType, SearchFilter, SearchRequest, SearchResult,
    TextCursor,
};
pub use csi::inference::{
    ChatParams, ChatRequest, ChatResponse, Completion, CompletionParams, CompletionRequest,
    Distribution, FinishReason, Logprob, Logprobs, Message, TokenUsage,
};
pub use csi::language::{LanguageCode, SelectLanguageRequest};
pub use csi::number::Number;
pub use csi::timestamp::Timestamp;
pub use csi::Csi;
