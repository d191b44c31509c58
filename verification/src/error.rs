//! What can go wrong, and how it is worded.
//!
//! A failure is kept as a value that says what happened; its message is
//! made from that value when somebody needs to read it.

use vstd::prelude::*;
use crate::guardrails::{guardrail_message, GuardrailError};
use crate::text::{join2, join3, push_text};
use crate::time::{fault_words, TimeError};

verus! {

/// The four families of failure of the server.
#[derive(Debug)]
pub enum LokiMcpError {
    Config(String),
    Loki(String),
    Tool(String),
    Guardrail(String),
}

impl LokiMcpError {
    /// The message: the family, a colon, and what was reported.
    pub open spec fn words(&self) -> Seq<char> {
        match self {
            LokiMcpError::Config(m) => "configuration error: "@ + m@,
            LokiMcpError::Loki(m) => "loki request failed: "@ + m@,
            LokiMcpError::Tool(m) => "tool error: "@ + m@,
            LokiMcpError::Guardrail(m) => "guardrail rejection: "@ + m@,
        }
    }

    pub fn message(&self) -> (r: String)
        ensures
            r@ == self.words(),
    {
        match self {
            LokiMcpError::Config(m) => join2("configuration error: ", m.as_str()),
            LokiMcpError::Loki(m) => join2("loki request failed: ", m.as_str()),
            LokiMcpError::Tool(m) => join2("tool error: ", m.as_str()),
            LokiMcpError::Guardrail(m) => join2("guardrail rejection: ", m.as_str()),
        }
    }
}

/// Why a tool did not answer.
#[derive(Debug)]
pub enum ToolError {
    /// The arguments do not fit the tool.
    InvalidParameters,
    Time(TimeError),
    Guardrail(GuardrailError),
    SavedQueryNotFound(String),
    EmptyTailLabels,
    UnsupportedAggregation(String),
    EmptyMatchers,
    EmptyLabel,
    UnsupportedLabel(String),
    /// A rule of that kind cannot be suggested.
    UnsupportedRuleType(String),
    TimestampOutOfRange,
    /// A range ends before it starts.
    NegativeRange,
    UnknownTool(String),
    /// The backend answered with something that is no answer of its kind.
    UndecodableResponse,
    /// The backend answered with an error of that type and message.
    Api(String, String),
    /// The backend, in its own words.
    Backend(String),
}

impl ToolError {
    pub open spec fn words(&self) -> Seq<char> {
        match self {
            ToolError::InvalidParameters => "invalid tool parameters"@,
            ToolError::Time(e) => fault_words(e.kind) + e.detail@,
            ToolError::Guardrail(e) => guardrail_message(*e),
            ToolError::SavedQueryNotFound(name) => "saved query not found: "@ + name@,
            ToolError::EmptyTailLabels => "tail labels must not be empty"@,
            ToolError::UnsupportedAggregation(name) => "unsupported aggregation: "@ + name@
                + ". expected one of count_over_time, rate, bytes_over_time, bytes_rate"@,
            ToolError::EmptyMatchers => "at least one series matcher is required"@,
            ToolError::EmptyLabel => "label must not be empty"@,
            ToolError::UnsupportedLabel(label) => "label contains unsupported characters: "@
                + label@,
            ToolError::UnsupportedRuleType(kind) => "unsupported rule type: "@ + kind@,
            ToolError::TimestampOutOfRange => "timestamp is out of range for nanoseconds"@,
            ToolError::NegativeRange => "time range must not be negative"@,
            ToolError::UnknownTool(name) => "unknown tool: "@ + name@,
            ToolError::UndecodableResponse => "failed to decode Loki JSON response"@,
            ToolError::Api(kind, m) => "loki api error ("@ + kind@ + "): "@ + m@,
            ToolError::Backend(m) => m@,
        }
    }

    pub fn message(&self) -> (r: String)
        ensures
            r@ == self.words(),
    {
        match self {
            ToolError::InvalidParameters => "invalid tool parameters".to_owned(),
            ToolError::Time(e) => e.message(),
            ToolError::Guardrail(e) => e.message(),
            ToolError::SavedQueryNotFound(name) => join2("saved query not found: ", name.as_str()),
            ToolError::EmptyTailLabels => "tail labels must not be empty".to_owned(),
            ToolError::UnsupportedAggregation(name) => join3(
                "unsupported aggregation: ",
                name.as_str(),
                ". expected one of count_over_time, rate, bytes_over_time, bytes_rate",
            ),
            ToolError::EmptyMatchers => "at least one series matcher is required".to_owned(),
            ToolError::EmptyLabel => "label must not be empty".to_owned(),
            ToolError::UnsupportedLabel(label) => join2(
                "label contains unsupported characters: ",
                label.as_str(),
            ),
            ToolError::UnsupportedRuleType(kind) => join2("unsupported rule type: ", kind.as_str()),
            ToolError::TimestampOutOfRange => "timestamp is out of range for nanoseconds".to_owned(),
            ToolError::NegativeRange => "time range must not be negative".to_owned(),
            ToolError::UnknownTool(name) => join2("unknown tool: ", name.as_str()),
            ToolError::UndecodableResponse => "failed to decode Loki JSON response".to_owned(),
            ToolError::Api(kind, m) => {
                let mut r = join3("loki api error (", kind.as_str(), "): ");
                push_text(&mut r, m.as_str());
                r
            },
            ToolError::Backend(m) => m.clone(),
        }
    }
}

} // verus!
