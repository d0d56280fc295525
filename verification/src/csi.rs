//! The services a skill may call, and the values they exchange.
pub mod chunking;
pub mod document_index;
pub mod inference;
pub mod language;
pub mod number;
pub mod timestamp;

use crate::csi::chunking::ChunkRequest;
use crate::csi::document_index::{Document, DocumentPath, SearchRequest, SearchResult};
use crate::csi::inference::{ChatRequest, ChatResponse, Completion, CompletionRequest};
use crate::csi::language::{LanguageCode, SelectLanguageRequest};
use serde_json::Value;
use vstd::prelude::*;

verus! {

/// Cognitive System Interface
///
/// Every service takes a batch of requests and answers each of them, in the
/// order of the requests: the answer at a position is the answer to the
/// request at that position, so there are as many answers as requests. An
/// implementation provides the batch operations. The operation on a single
/// request comes with them: it is the batch operation on that request alone.
///
/// The contract of each single operation says so by naming the call of the
/// batch operation that its result comes from. For that, the bodies make the
/// call through the operation as a value.
pub trait Csi {
    /// Chunk the given text into smaller pieces that fit within the
    /// maximum token amount for a given model.
    ///
    /// Gives what [`Csi::chunk_concurrently`] gives for the batch that holds
    /// `request` and nothing else.
    fn chunk(&self, request: ChunkRequest) -> (chunks: Vec<String>)
        ensures
            exists|batch: Vec<ChunkRequest>, all: Vec<Vec<String>>|
                {
                    &&& batch@ == seq![request]
                    &&& #[trigger] call_ensures(Self::chunk_concurrently, (self, batch), all)
                    &&& all@ == seq![chunks]
                },
    {
        let batch_operation = Self::chunk_concurrently;
        let mut all = batch_operation(self, vec![request]);
        let ghost given = all;
        let chunks = all.remove(0);
        assert(given@ =~= seq![chunks]);
        chunks
    }

    /// Process multiple chunking requests at once
    fn chunk_concurrently(&self, requests: Vec<ChunkRequest>) -> (all: Vec<Vec<String>>)
        ensures
            all.len() == requests.len(),
    ;

    /// Search for documents in a given index.
    ///
    /// Gives what [`Csi::search_concurrently`] gives for the batch that holds
    /// `request` and nothing else.
    fn search(&self, request: SearchRequest) -> (results: Vec<SearchResult>)
        ensures
            exists|batch: Vec<SearchRequest>, all: Vec<Vec<SearchResult>>|
                {
                    &&& batch@ == seq![request]
                    &&& #[trigger] call_ensures(Self::search_concurrently, (self, batch), all)
                    &&& all@ == seq![results]
                },
    {
        let batch_operation = Self::search_concurrently;
        let mut all = batch_operation(self, vec![request]);
        let ghost given = all;
        let results = all.remove(0);
        assert(given@ =~= seq![results]);
        results
    }

    /// Process multiple search requests at once
    fn search_concurrently(&self, requests: Vec<SearchRequest>) -> (all: Vec<Vec<SearchResult>>)
        ensures
            all.len() == requests.len(),
    ;

    /// Retrieve a document from the Document Index by its path.
    ///
    /// Gives what [`Csi::documents`] gives for the batch that holds `path`
    /// and nothing else: its one document, or its failure.
    fn document(&self, path: DocumentPath) -> (document: Result<Document<Value>, String>)
        ensures
            exists|batch: Vec<DocumentPath>, all: Result<Vec<Document<Value>>, String>|
                {
                    &&& batch@ == seq![path]
                    &&& #[trigger] call_ensures(Self::documents, (self, batch), all)
                    &&& match document {
                        Ok(found) => all matches Ok(every) && every@ == seq![found],
                        Err(reason) => all == Err::<Vec<Document<Value>>, String>(reason),
                    }
                },
    {
        let batch_operation = Self::documents;
        let all = batch_operation(self, vec![path]);
        match all {
            Ok(every) => {
                let mut every = every;
                let ghost given = every;
                let found = every.remove(0);
                assert(given@ =~= seq![found]);
                Ok(found)
            },
            Err(reason) => Err(reason),
        }
    }

    /// Retrieve multiple documents from the Document Index by their paths.
    ///
    /// Fails as a whole if one of them cannot be had: there is a document for
    /// every path, or none at all.
    fn documents(&self, paths: Vec<DocumentPath>) -> (all: Result<Vec<Document<Value>>, String>)
        ensures
            all matches Ok(found) ==> found.len() == paths.len(),
    ;

    /// Retrieve a document's metadata from the Document Index by its path.
    ///
    /// Gives what [`Csi::documents_metadata`] gives for the batch that holds
    /// `path` and nothing else: its one answer, or its failure.
    fn document_metadata(&self, path: DocumentPath) -> (metadata: Result<Option<Value>, String>)
        ensures
            exists|batch: Vec<DocumentPath>, all: Result<Vec<Option<Value>>, String>|
                {
                    &&& batch@ == seq![path]
                    &&& #[trigger] call_ensures(Self::documents_metadata, (self, batch), all)
                    &&& match metadata {
                        Ok(found) => all matches Ok(every) && every@ == seq![found],
                        Err(reason) => all == Err::<Vec<Option<Value>>, String>(reason),
                    }
                },
    {
        let batch_operation = Self::documents_metadata;
        let all = batch_operation(self, vec![path]);
        match all {
            Ok(every) => {
                let mut every = every;
                let ghost given = every;
                let found = every.remove(0);
                assert(given@ =~= seq![found]);
                Ok(found)
            },
            Err(reason) => Err(reason),
        }
    }

    /// Retrieve multiple documents' metadata from the Document Index by their paths.
    ///
    /// A document without metadata has `None` at its place. Fails as a whole
    /// if the metadata of one document cannot be had.
    fn documents_metadata(&self, paths: Vec<DocumentPath>) -> (all: Result<
        Vec<Option<Value>>,
        String,
    >)
        ensures
            all matches Ok(found) ==> found.len() == paths.len(),
    ;

    /// Send messages with a particular role to a model and receive a response.
    /// Provides a higher level interface than completion for chat scenarios.
    ///
    /// Gives what [`Csi::chat_concurrently`] gives for the batch that holds
    /// `request` and nothing else.
    fn chat(&self, request: ChatRequest) -> (response: ChatResponse)
        ensures
            exists|batch: Vec<ChatRequest>, all: Vec<ChatResponse>|
                {
                    &&& batch@ == seq![request]
                    &&& #[trigger] call_ensures(Self::chat_concurrently, (self, batch), all)
                    &&& all@ == seq![response]
                },
    {
        let batch_operation = Self::chat_concurrently;
        let mut all = batch_operation(self, vec![request]);
        let ghost given = all;
        let response = all.remove(0);
        assert(given@ =~= seq![response]);
        response
    }

    /// Process multiple chat requests at once
    fn chat_concurrently(&self, requests: Vec<ChatRequest>) -> (all: Vec<ChatResponse>)
        ensures
            all.len() == requests.len(),
    ;

    /// Generate a completion for a given prompt using a specific model.
    ///
    /// Gives what [`Csi::complete_concurrently`] gives for the batch that
    /// holds `request` and nothing else.
    fn complete(&self, request: CompletionRequest) -> (completion: Completion)
        ensures
            exists|batch: Vec<CompletionRequest>, all: Vec<Completion>|
                {
                    &&& batch@ == seq![request]
                    &&& #[trigger] call_ensures(Self::complete_concurrently, (self, batch), all)
                    &&& all@ == seq![completion]
                },
    {
        let batch_operation = Self::complete_concurrently;
        let mut all = batch_operation(self, vec![request]);
        let ghost given = all;
        let completion = all.remove(0);
        assert(given@ =~= seq![completion]);
        completion
    }

    /// Process multiple completion requests at once
    fn complete_concurrently(&self, requests: Vec<CompletionRequest>) -> (all: Vec<Completion>)
        ensures
            all.len() == requests.len(),
    ;

    /// Select the detected language for the provided input based on the list of possible languages.
    /// If no language matches, None is returned.
    ///
    /// Gives what [`Csi::select_language_concurrently`] gives for the batch
    /// that holds `request` and nothing else.
    fn select_language(&self, request: SelectLanguageRequest) -> (language: Option<LanguageCode>)
        ensures
            exists|batch: Vec<SelectLanguageRequest>, all: Vec<Option<LanguageCode>>|
                {
                    &&& batch@ == seq![request]
                    &&& #[trigger] call_ensures(
                        Self::select_language_concurrently,
                        (self, batch),
                        all,
                    )
                    &&& all@ == seq![language]
                },
    {
        let batch_operation = Self::select_language_concurrently;
        let mut all = batch_operation(self, vec![request]);
        let ghost given = all;
        let language = all.remove(0);
        assert(given@ =~= seq![language]);
        language
    }

    /// Process multiple select language requests at once
    fn select_language_concurrently(&self, requests: Vec<SelectLanguageRequest>) -> (all: Vec<
        Option<LanguageCode>,
    >)
        ensures
            all.len() == requests.len(),
    ;
}

} // verus!
