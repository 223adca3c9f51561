//! Settings that the dashboard edits.

use vstd::prelude::*;

use crate::text::slice;

verus! {

/// What is wrong with a field.
#[derive(Debug)]
pub struct FieldError {
    pub field: String,
    pub message: String,
}

impl View for FieldError {
    type V = (Seq<char>, Seq<char>);

    open spec fn view(&self) -> (Seq<char>, Seq<char>) {
        (self.field@, self.message@)
    }
}

/// What a list of errors holds.
pub open spec fn errors(v: Seq<FieldError>) -> Seq<(Seq<char>, Seq<char>)> {
    v.map_values(|e: FieldError| e@)
}

/// The kind of service that a language model runs on.
#[derive(Clone, Copy, Debug, PartialEq, Eq, Structural)]
pub enum AiBackendKind {
    OpenAi,
    Ollama,
}

/// How to reach the language model.
#[derive(Debug)]
pub struct AiConnection {
    pub backend: AiBackendKind,
    pub base_url: Option<String>,
    pub model: String,
    /// Seconds.
    pub timeout: u64,
    pub reasoning_effort: Option<String>,
    pub service_tier: Option<String>,
}

/// What a connection holds.
pub struct ConnectionModel {
    pub backend: AiBackendKind,
    pub base_url: Option<Seq<char>>,
    pub model: Seq<char>,
    pub timeout: u64,
    pub reasoning_effort: Option<Seq<char>>,
    pub service_tier: Option<Seq<char>>,
}

impl View for AiConnection {
    type V = ConnectionModel;

    open spec fn view(&self) -> ConnectionModel {
        ConnectionModel {
            backend: self.backend,
            base_url: slice::opt_text(self.base_url),
            model: self.model@,
            timeout: self.timeout,
            reasoning_effort: slice::opt_text(self.reasoning_effort),
            service_tier: slice::opt_text(self.service_tier),
        }
    }
}

/// What the nightly ritual has of its own; what is missing comes from the
/// connection.
#[derive(Debug)]
pub struct AiDreamer {
    pub model: Option<String>,
    pub reasoning_effort: Option<String>,
    pub service_tier: Option<String>,
}

/// What the ritual's settings hold.
pub struct DreamerModel {
    pub model: Option<Seq<char>>,
    pub reasoning_effort: Option<Seq<char>>,
    pub service_tier: Option<Seq<char>>,
}

impl View for AiDreamer {
    type V = DreamerModel;

    open spec fn view(&self) -> DreamerModel {
        DreamerModel {
            model: slice::opt_text(self.model),
            reasoning_effort: slice::opt_text(self.reasoning_effort),
            service_tier: slice::opt_text(self.service_tier),
        }
    }
}

} // verus!
