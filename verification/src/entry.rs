//! The entries of a Codex session file.

use crate::text::{copy_non_empty, first_of, non_empty, text_of};
use crate::tokens::CodexTokenUsage;
use vstd::prelude::*;

verus! {

/// One entry of a session file.
#[derive(Debug)]
pub struct CodexEntry {
    pub entry_type: String,
    pub timestamp: Option<String>,
    pub payload: Option<CodexPayload>,
}

/// What an entry carries.
#[derive(Debug)]
pub struct CodexPayload {
    pub payload_type: Option<String>,
    pub model: Option<String>,
    pub model_name: Option<String>,
    pub cwd: Option<String>,
    pub model_info: Option<CodexModelInfo>,
    pub info: Option<CodexInfo>,
    pub source: Option<String>,
    /// Provider of the session's model (such as "openai" or "azure").
    pub model_provider: Option<String>,
    /// Name of the agent that runs the session.
    pub agent_nickname: Option<String>,
}

/// The model of a turn.
#[derive(Debug)]
pub struct CodexModelInfo {
    pub slug: Option<String>,
}

/// The counters of a token report.
#[derive(Debug)]
pub struct CodexInfo {
    pub model: Option<String>,
    pub model_name: Option<String>,
    pub last_token_usage: Option<CodexTokenUsage>,
    pub total_token_usage: Option<CodexTokenUsage>,
}

impl CodexPayload {
    /// The slug of the payload's model information.
    pub open spec fn slug(self) -> Option<Seq<char>> {
        match self.model_info {
            Some(info) => text_of(info.slug),
            None => None,
        }
    }

    /// The model that the payload's counters name, under either key.
    pub open spec fn counter_model(self) -> Option<Seq<char>> {
        match self.info {
            Some(info) => first_of(non_empty(text_of(info.model)), non_empty(text_of(info.model_name))),
            None => None,
        }
    }

    /// The model that the payload names: the first of its places for one that is not empty.
    pub open spec fn named_model(self) -> Option<Seq<char>> {
        first_of(
            non_empty(self.slug()),
            first_of(
                non_empty(text_of(self.model)),
                first_of(non_empty(text_of(self.model_name)), self.counter_model()),
            ),
        )
    }
}

/// The model that `payload` names. Empty names are passed over.
pub fn extract_model(payload: &CodexPayload) -> (model: Option<String>)
    ensures
        text_of(model) == payload.named_model(),
{
    if let Some(info) = &payload.model_info {
        let slug = copy_non_empty(&info.slug);
        if slug.is_some() {
            return slug;
        }
    }
    let model = copy_non_empty(&payload.model);
    if model.is_some() {
        return model;
    }
    let model_name = copy_non_empty(&payload.model_name);
    if model_name.is_some() {
        return model_name;
    }
    match &payload.info {
        Some(info) => {
            let model = copy_non_empty(&info.model);
            if model.is_some() {
                return model;
            }
            copy_non_empty(&info.model_name)
        },
        None => None,
    }
}

} // verus!
