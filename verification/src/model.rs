//! The normalized assistant response, one shape for every kind of provider
//! answer.

use vstd::prelude::*;

verus! {

/// Why the model stopped generating.
#[derive(Debug, Clone, Copy, PartialEq, Eq)]
pub enum FinishReason {
    Stop,
    Length,
    ToolCalls,
    ContentFilter,
    FunctionCall,
}

/// The finish reason that a wire token stands for, if any. Tokens are
/// compared as they are written, case included.
pub open spec fn finish_reason_of(token: Seq<char>) -> Option<FinishReason> {
    if token == "stop"@ {
        Some(FinishReason::Stop)
    } else if token == "length"@ {
        Some(FinishReason::Length)
    } else if token == "tool_calls"@ {
        Some(FinishReason::ToolCalls)
    } else if token == "content_filter"@ {
        Some(FinishReason::ContentFilter)
    } else if token == "function_call"@ {
        Some(FinishReason::FunctionCall)
    } else {
        None
    }
}

/// Whether two strings hold the same text.
fn same_text(a: &str, b: &str) -> (same: bool)
    ensures
        same == (a@ == b@),
{
    a.to_owned() == b.to_owned()
}

impl FinishReason {
    /// Reads a wire token. An unknown token gives `None`.
    pub fn from_token(token: &str) -> (reason: Option<FinishReason>)
        ensures
            reason == finish_reason_of(token@),
    {
        if same_text(token, "stop") {
            Some(FinishReason::Stop)
        } else if same_text(token, "length") {
            Some(FinishReason::Length)
        } else if same_text(token, "tool_calls") {
            Some(FinishReason::ToolCalls)
        } else if same_text(token, "content_filter") {
            Some(FinishReason::ContentFilter)
        } else if same_text(token, "function_call") {
            Some(FinishReason::FunctionCall)
        } else {
            None
        }
    }

    /// The wire token of a finish reason.
    pub fn token(&self) -> (token: &'static str)
        ensures
            finish_reason_of(token@) == Some(*self),
    {
        proof {
            lemma_known_tokens();
        }
        match self {
            FinishReason::Stop => "stop",
            FinishReason::Length => "length",
            FinishReason::ToolCalls => "tool_calls",
            FinishReason::ContentFilter => "content_filter",
            FinishReason::FunctionCall => "function_call",
        }
    }
}

/// Each of the five canonical tokens stands for its own finish reason.
pub proof fn lemma_known_tokens()
    ensures
        finish_reason_of("stop"@) == Some(FinishReason::Stop),
        finish_reason_of("length"@) == Some(FinishReason::Length),
        finish_reason_of("tool_calls"@) == Some(FinishReason::ToolCalls),
        finish_reason_of("content_filter"@) == Some(FinishReason::ContentFilter),
        finish_reason_of("function_call"@) == Some(FinishReason::FunctionCall),
{
    reveal_strlit("stop");
    reveal_strlit("length");
    reveal_strlit("tool_calls");
    reveal_strlit("content_filter");
    reveal_strlit("function_call");
    assert("length"@.len() != "stop"@.len());
    assert("tool_calls"@[0] != "stop"@[0]);
    assert("tool_calls"@[0] != "length"@[0]);
    assert("content_filter"@.len() != "stop"@.len());
    assert("content_filter"@.len() != "length"@.len());
    assert("content_filter"@.len() != "tool_calls"@.len());
    assert("function_call"@.len() != "stop"@.len());
    assert("function_call"@.len() != "length"@.len());
    assert("function_call"@.len() != "tool_calls"@.len());
    assert("function_call"@.len() != "content_filter"@.len());
}

/// A token is read as a finish reason exactly when it is one of the five
/// canonical tokens; any other token is read as none.
pub proof fn lemma_token_read_iff_known(token: Seq<char>)
    ensures
        finish_reason_of(token) is Some <==> (token == "stop"@ || token == "length"@ || token
            == "tool_calls"@ || token == "content_filter"@ || token == "function_call"@),
{
}

/// Identifier that ties together the parts of one tool call.
#[derive(Debug, Clone, PartialEq, Eq)]
pub struct ToolCallId(pub String);

/// Name of a tool.
#[derive(Debug, Clone, PartialEq, Eq)]
pub struct ToolName(pub String);

/// The arguments of a tool call: a parsed document where the message was
/// complete, the raw fragment where it was a streamed chunk.
#[derive(Debug, PartialEq)]
pub enum ArgumentsPart {
    Parsed(serde_json::Value),
    Fragment(String),
}

/// One tool call, or one streamed part of it.
#[derive(Debug, PartialEq)]
pub struct ToolCallPart {
    pub call_id: Option<ToolCallId>,
    pub name: Option<ToolName>,
    pub arguments_part: ArgumentsPart,
}

/// The normalized assistant response.
#[derive(Debug, PartialEq)]
pub struct Response {
    pub content: String,
    pub tool_calls: Vec<ToolCallPart>,
    pub finish_reason: Option<FinishReason>,
}

/// `ArgumentsPart` as contracts speak of it.
pub enum ArgumentsModel {
    Parsed(serde_json::Value),
    Fragment(Seq<char>),
}

/// `ToolCallPart` as contracts speak of it.
pub struct PartModel {
    pub call_id: Option<Seq<char>>,
    pub name: Option<Seq<char>>,
    pub arguments_part: ArgumentsModel,
}

/// `Response` as contracts speak of it.
pub struct ResponseModel {
    pub content: Seq<char>,
    pub tool_calls: Seq<PartModel>,
    pub finish_reason: Option<FinishReason>,
}

/// The text of an optional identifier.
pub open spec fn id_text(id: Option<ToolCallId>) -> Option<Seq<char>> {
    match id {
        Some(id) => Some(id.0@),
        None => None,
    }
}

/// The text of an optional tool name.
pub open spec fn name_text(name: Option<ToolName>) -> Option<Seq<char>> {
    match name {
        Some(name) => Some(name.0@),
        None => None,
    }
}

impl View for ArgumentsPart {
    type V = ArgumentsModel;

    open spec fn view(&self) -> ArgumentsModel {
        match *self {
            ArgumentsPart::Parsed(document) => ArgumentsModel::Parsed(document),
            ArgumentsPart::Fragment(raw) => ArgumentsModel::Fragment(raw@),
        }
    }
}

impl View for ToolCallPart {
    type V = PartModel;

    open spec fn view(&self) -> PartModel {
        PartModel {
            call_id: id_text(self.call_id),
            name: name_text(self.name),
            arguments_part: self.arguments_part@,
        }
    }
}

/// The parts of a sequence of tool calls, as contracts speak of them.
pub open spec fn part_models(parts: Seq<ToolCallPart>) -> Seq<PartModel> {
    Seq::new(parts.len(), |i: int| parts[i]@)
}

impl View for Response {
    type V = ResponseModel;

    open spec fn view(&self) -> ResponseModel {
        ResponseModel {
            content: self.content@,
            tool_calls: part_models(self.tool_calls@),
            finish_reason: self.finish_reason,
        }
    }
}

impl Response {
    /// An assistant response with the given text, no tool calls and no
    /// finish reason.
    pub fn assistant(content: String) -> (response: Response)
        ensures
            response@ == (ResponseModel {
                content: content@,
                tool_calls: Seq::empty(),
                finish_reason: None,
            }),
    {
        let response = Response { content, tool_calls: Vec::new(), finish_reason: None };
        assert(response@.tool_calls =~= Seq::empty());
        response
    }

    /// The same response with its finish reason replaced.
    pub fn finish_reason_opt(self, reason: Option<FinishReason>) -> (response: Response)
        ensures
            response@ == (ResponseModel { finish_reason: reason, ..self@ }),
    {
        Response { content: self.content, tool_calls: self.tool_calls, finish_reason: reason }
    }

    /// The same response with one more tool call at the end.
    pub fn add_tool_call(self, part: ToolCallPart) -> (response: Response)
        ensures
            response@ == (ResponseModel { tool_calls: self@.tool_calls.push(part@), ..self@ }),
    {
        let mut tool_calls = self.tool_calls;
        tool_calls.push(part);
        let response = Response {
            content: self.content,
            tool_calls,
            finish_reason: self.finish_reason,
        };
        assert(response@.tool_calls =~= self@.tool_calls.push(part@));
        response
    }
}

} // verus!
