//! What the core knows about the language-model collaborator: the error
//! taxonomy of a completion server and the endpoints of a local one. The
//! network client itself lives outside the library.

use vstd::prelude::*;
use vstd::string::StringExecFns;

verus! {

/// Why a call to the language-model server failed. Any of these aborts the
/// current tick; an empty completion is not an error but a silent retry.
#[derive(Debug)]
pub enum LLMError {
    /// The server could not be reached.
    FailedToAccessServer,
    /// The server reported no loaded models.
    EmptyModelList,
    /// The server's reply was not valid JSON; the payload is kept.
    JsonParseError { json: String },
    /// The request could not be serialized.
    FailedToSerializeQuery,
    /// The server is up but the model is not loaded.
    ModelNotLoaded,
    /// The server's health check returned an unknown state.
    UnexpectedServerState(String),
    /// A grammar file could not be loaded; the text says why.
    FailedToLoadGrammar(String),
}

impl LLMError {
    /// The text of each failure, for use in contracts.
    pub open spec fn spec_describe(self) -> Seq<char> {
        match self {
            LLMError::FailedToAccessServer => "Failed to access server"@,
            LLMError::EmptyModelList => "Model list is empty"@,
            LLMError::JsonParseError { json } => "Failed to parse JSON response:\n===\n"@ + json@
                + "\n==="@,
            LLMError::FailedToSerializeQuery => "Failed to serialize query"@,
            LLMError::ModelNotLoaded => "Failed load the language model"@,
            LLMError::UnexpectedServerState(state) =>
                "Server health returned within an unexpected state: "@ + state@,
            LLMError::FailedToLoadGrammar(reason) => "Failed to load grammar file at: "@ + reason@,
        }
    }

    /// Renders the failure as text.
    pub fn describe(&self) -> (r: String)
        ensures
            r@ == self.spec_describe(),
    {
        match self {
            LLMError::FailedToAccessServer => String::from_str("Failed to access server"),
            LLMError::EmptyModelList => String::from_str("Model list is empty"),
            LLMError::JsonParseError { json } => {
                let mut s = String::from_str("Failed to parse JSON response:\n===\n");
                s.append(json.as_str());
                s.append("\n===");
                assert(s@ =~= self.spec_describe());
                s
            }
            LLMError::FailedToSerializeQuery => String::from_str("Failed to serialize query"),
            LLMError::ModelNotLoaded => String::from_str("Failed load the language model"),
            LLMError::UnexpectedServerState(state) => {
                let mut s = String::from_str(
                    "Server health returned within an unexpected state: ",
                );
                s.append(state.as_str());
                assert(s@ =~= self.spec_describe());
                s
            }
            LLMError::FailedToLoadGrammar(reason) => {
                let mut s = String::from_str("Failed to load grammar file at: ");
                s.append(reason.as_str());
                assert(s@ =~= self.spec_describe());
                s
            }
        }
    }
}

/// A llama.cpp completion server, known to the core only by its base URL.
/// The unverified client derives the endpoints from it.
#[derive(Debug)]
pub struct LlamaCppServer {
    pub url: String,
}

impl LlamaCppServer {
    /// A server at the given base URL.
    pub fn new(url: String) -> (r: Self)
        ensures
            r.url@ == url@,
    {
        LlamaCppServer { url }
    }

    /// The health-check endpoint.
    pub fn health_url(&self) -> (r: String)
        ensures
            r@ == self.url@ + "/health"@,
    {
        let mut s = self.url.clone();
        s.append("/health");
        s
    }

    /// The completion endpoint.
    pub fn completion_url(&self) -> (r: String)
        ensures
            r@ == self.url@ + "/completion"@,
    {
        let mut s = self.url.clone();
        s.append("/completion");
        s
    }

    /// The tokenizer endpoint.
    pub fn tokenize_url(&self) -> (r: String)
        ensures
            r@ == self.url@ + "/tokenize"@,
    {
        let mut s = self.url.clone();
        s.append("/tokenize");
        s
    }
}

impl Default for LlamaCppServer {
    /// The conventional local server.
    fn default() -> (r: Self)
        ensures
            r.url@ == "http://localhost:8080"@,
    {
        LlamaCppServer { url: String::from_str("http://localhost:8080") }
    }
}

} // verus!
