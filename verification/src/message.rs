//! Messages: the unit in which token usage is reported.

use crate::text::text_of;
use crate::tokens::TokenBreakdown;
use vstd::prelude::*;

verus! {

/// Usage of one model at one instant of a session.
#[derive(Debug, Clone)]
pub struct UnifiedMessage {
    pub client: String,
    pub model_id: String,
    pub provider_id: String,
    pub session_id: String,
    pub timestamp: i64,
    pub tokens: TokenBreakdown,
    pub agent: Option<String>,
}

/// A message, as specifications speak of it.
pub ghost struct MessageView {
    pub client: Seq<char>,
    pub model_id: Seq<char>,
    pub provider_id: Seq<char>,
    pub session_id: Seq<char>,
    pub timestamp: i64,
    pub tokens: TokenBreakdown,
    pub agent: Option<Seq<char>>,
}

impl View for UnifiedMessage {
    type V = MessageView;

    open spec fn view(&self) -> MessageView {
        MessageView {
            client: self.client@,
            model_id: self.model_id@,
            provider_id: self.provider_id@,
            session_id: self.session_id@,
            timestamp: self.timestamp,
            tokens: self.tokens,
            agent: text_of(self.agent),
        }
    }
}

/// The messages that `messages` holds.
pub open spec fn messages_of(messages: Seq<UnifiedMessage>) -> Seq<MessageView> {
    messages.map_values(|message: UnifiedMessage| message@)
}

} // verus!
