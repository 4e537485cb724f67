//! The provider's wire response and its adaptation to the normalized
//! assistant response.

use crate::error::{ProviderError, ProviderErrorModel};
use crate::json::{is_json, json_parse, parse};
use crate::model::{
    finish_reason_of, id_text, name_text, part_models, ArgumentsModel, ArgumentsPart, FinishReason,
    PartModel, Response, ResponseModel, ToolCallId, ToolCallPart, ToolName,
};
use std::collections::HashMap;
use vstd::prelude::*;

verus! {

/// The envelope of a chat-completion response.
#[derive(Debug)]
pub struct OpenRouterResponse {
    pub id: String,
    pub provider: String,
    pub model: String,
    pub choices: Vec<Choice>,
    pub created: u64,
    pub object: String,
    pub system_fingerprint: Option<String>,
    pub usage: Option<ResponseUsage>,
}

/// Token counts of one exchange.
#[derive(Debug, Clone, Copy, PartialEq, Eq)]
pub struct ResponseUsage {
    pub prompt_tokens: u64,
    pub completion_tokens: u64,
    pub total_tokens: u64,
}

/// One alternative reply: a text completion, a complete chat message, or a
/// streamed chunk of one.
#[derive(Debug)]
pub enum Choice {
    NonChat { finish_reason: Option<String>, text: String, error: Option<ErrorResponse> },
    NonStreaming {
        logprobs: Option<serde_json::Value>,
        index: u32,
        finish_reason: Option<String>,
        message: ResponseMessage,
        error: Option<ErrorResponse>,
    },
    Streaming { finish_reason: Option<String>, delta: ResponseMessage, error: Option<ErrorResponse> },
}

/// The three shapes of a choice.
#[derive(Debug, Clone, Copy, PartialEq, Eq)]
pub enum ChoiceKind {
    NonStreaming,
    Streaming,
    NonChat,
}

/// The shape that the fields present in a payload select: `message` selects
/// a complete message, else `delta` a streamed chunk, else `text` a text
/// completion; a payload with none of them has no shape.
pub open spec fn kind_by_fields(has_message: bool, has_delta: bool, has_text: bool) -> Option<
    ChoiceKind,
> {
    if has_message {
        Some(ChoiceKind::NonStreaming)
    } else if has_delta {
        Some(ChoiceKind::Streaming)
    } else if has_text {
        Some(ChoiceKind::NonChat)
    } else {
        None
    }
}

impl ChoiceKind {
    /// Selects the shape of a payload by the fields that are present in it.
    pub fn select(has_message: bool, has_delta: bool, has_text: bool) -> (kind: Option<ChoiceKind>)
        ensures
            kind == kind_by_fields(has_message, has_delta, has_text),
    {
        if has_message {
            Some(ChoiceKind::NonStreaming)
        } else if has_delta {
            Some(ChoiceKind::Streaming)
        } else if has_text {
            Some(ChoiceKind::NonChat)
        } else {
            None
        }
    }
}

impl Choice {
    /// The shape of this choice.
    pub fn kind(&self) -> (kind: ChoiceKind)
        ensures
            kind == ChoiceKind::NonStreaming <==> *self is NonStreaming,
            kind == ChoiceKind::Streaming <==> *self is Streaming,
            kind == ChoiceKind::NonChat <==> *self is NonChat,
    {
        match self {
            Choice::NonChat { .. } => ChoiceKind::NonChat,
            Choice::NonStreaming { .. } => ChoiceKind::NonStreaming,
            Choice::Streaming { .. } => ChoiceKind::Streaming,
        }
    }
}

/// A soft error that the provider attached to a choice.
#[derive(Debug)]
pub struct ErrorResponse {
    pub code: u32,
    pub message: String,
    pub metadata: HashMap<String, serde_json::Value>,
}

/// A chat message, or the delta of one. Every field may be absent.
#[derive(Debug, Clone)]
pub struct ResponseMessage {
    pub content: Option<String>,
    pub role: Option<String>,
    pub tool_calls: Option<Vec<OpenRouterToolCall>>,
    pub refusal: Option<String>,
}

/// A tool call as the provider writes it.
#[derive(Debug, Clone)]
pub struct OpenRouterToolCall {
    pub id: Option<ToolCallId>,
    pub kind: String,
    pub function: FunctionCall,
}

/// The function that a tool call names, with its arguments as text.
#[derive(Debug, Clone)]
pub struct FunctionCall {
    pub name: Option<ToolName>,
    pub arguments: String,
}

/// The name under which this provider is reported.
pub open spec fn provider_name() -> Seq<char> {
    "Open Router"@
}

/// The part that a tool call gives, with the given arguments.
pub open spec fn part_of(call: OpenRouterToolCall, arguments: ArgumentsModel) -> PartModel {
    PartModel { call_id: id_text(call.id), name: name_text(call.function.name), arguments_part: arguments }
}

/// The part that a streamed tool call gives: its arguments stay as written.
pub open spec fn fragment_of(call: OpenRouterToolCall) -> PartModel {
    part_of(call, ArgumentsModel::Fragment(call.function.arguments@))
}

/// The parts of streamed tool calls, in their order.
pub open spec fn fragments_of(calls: Seq<OpenRouterToolCall>) -> Seq<PartModel> {
    Seq::new(calls.len(), |i: int| fragment_of(calls[i]))
}

/// The part that a tool call of a complete message gives, once its arguments
/// have been handed to the parser: the part with the document, or the
/// parser's diagnostic.
pub open spec fn parsed_of(
    call: OpenRouterToolCall,
    parsed: Result<serde_json::Value, serde_json::Error>,
) -> Result<PartModel, ProviderErrorModel> {
    match parsed {
        Ok(document) => Ok(part_of(call, ArgumentsModel::Parsed(document))),
        Err(diagnostic) => Err(ProviderErrorModel::ArgumentsParse(diagnostic)),
    }
}

/// The parts of the tool calls of a complete message, in their order, or the
/// failure of the first call whose arguments are no JSON document.
pub open spec fn all_parsed(calls: Seq<OpenRouterToolCall>) -> Result<
    Seq<PartModel>,
    ProviderErrorModel,
>
    decreases calls.len(),
{
    if calls.len() == 0 {
        Ok(Seq::empty())
    } else {
        match all_parsed(calls.drop_last()) {
            Err(failure) => Err(failure),
            Ok(parts) => match parsed_of(calls.last(), json_parse(calls.last().function.arguments@)) {
                Ok(part) => Ok(parts.push(part)),
                Err(failure) => Err(failure),
            },
        }
    }
}

/// The tool calls of a message; none where the field is absent.
pub open spec fn calls_of(message: ResponseMessage) -> Seq<OpenRouterToolCall> {
    match message.tool_calls {
        Some(calls) => calls@,
        None => Seq::empty(),
    }
}

/// The text of a message; empty where the field is absent.
pub open spec fn content_of(message: ResponseMessage) -> Seq<char> {
    match message.content {
        Some(content) => content@,
        None => Seq::empty(),
    }
}

/// The finish reason that an optional wire token stands for.
pub open spec fn reason_of(token: Option<String>) -> Option<FinishReason> {
    match token {
        Some(token) => finish_reason_of(token@),
        None => None,
    }
}

/// What one choice adapts to. The `error` field of the choice plays no part.
pub open spec fn adapted_choice(choice: Choice) -> Result<ResponseModel, ProviderErrorModel> {
    match choice {
        Choice::NonChat { finish_reason, text, .. } => Ok(
            ResponseModel {
                content: text@,
                tool_calls: Seq::empty(),
                finish_reason: reason_of(finish_reason),
            },
        ),
        Choice::NonStreaming { finish_reason, message, .. } => match all_parsed(calls_of(message)) {
            Ok(parts) => Ok(
                ResponseModel {
                    content: content_of(message),
                    tool_calls: parts,
                    finish_reason: reason_of(finish_reason),
                },
            ),
            Err(failure) => Err(failure),
        },
        Choice::Streaming { finish_reason, delta, .. } => Ok(
            ResponseModel {
                content: content_of(delta),
                tool_calls: fragments_of(calls_of(delta)),
                finish_reason: reason_of(finish_reason),
            },
        ),
    }
}

/// What a response adapts to: its first choice decides, the others play no
/// part; without a choice it fails.
pub open spec fn adapted(response: OpenRouterResponse) -> Result<ResponseModel, ProviderErrorModel> {
    if response.choices@.len() == 0 {
        Err(ProviderErrorModel::EmptyResponse(provider_name()))
    } else {
        adapted_choice(response.choices@[0])
    }
}

/// What an adaptation returned, as contracts speak of it.
pub open spec fn outcome(result: Result<Response, ProviderError>) -> Result<
    ResponseModel,
    ProviderErrorModel,
> {
    match result {
        Ok(response) => Ok(response@),
        Err(failure) => Err(failure@),
    }
}

/// A copy of an optional identifier.
fn copy_id(id: &Option<ToolCallId>) -> (copy: Option<ToolCallId>)
    ensures
        id_text(copy) == id_text(*id),
{
    match id {
        Some(id) => Some(ToolCallId(id.0.clone())),
        None => None,
    }
}

/// A copy of an optional tool name.
fn copy_name(name: &Option<ToolName>) -> (copy: Option<ToolName>)
    ensures
        name_text(copy) == name_text(*name),
{
    match name {
        Some(name) => Some(ToolName(name.0.clone())),
        None => None,
    }
}

/// The text of an optional field, empty where it is absent.
fn text_or_empty(text: &Option<String>) -> (copy: String)
    ensures
        copy@ == match *text {
            Some(text) => text@,
            None => Seq::<char>::empty(),
        },
{
    match text {
        Some(text) => text.clone(),
        None => String::new(),
    }
}

/// Reads an optional wire token as a finish reason. An absent or unknown
/// token gives `None`.
pub fn parse_finish_reason(token: &Option<String>) -> (reason: Option<FinishReason>)
    ensures
        reason == reason_of(*token),
{
    match token {
        Some(token) => FinishReason::from_token(token.as_str()),
        None => None,
    }
}

/// The part of a streamed tool call: identifier and name as they are, the
/// arguments as the raw fragment.
pub fn fragment_part(call: &OpenRouterToolCall) -> (part: ToolCallPart)
    ensures
        part@ == fragment_of(*call),
{
    ToolCallPart {
        call_id: copy_id(&call.id),
        name: copy_name(&call.function.name),
        arguments_part: ArgumentsPart::Fragment(call.function.arguments.clone()),
    }
}

/// The part of a tool call of a complete message, given what the parser made
/// of its arguments: the part with the document, or `ArgumentsParse` with the
/// parser's diagnostic.
pub fn parsed_part(
    call: &OpenRouterToolCall,
    parsed: Result<serde_json::Value, serde_json::Error>,
) -> (result: Result<ToolCallPart, ProviderError>)
    ensures
        match result {
            Ok(part) => Ok(part@),
            Err(failure) => Err(failure@),
        } == parsed_of(*call, parsed),
{
    match parsed {
        Ok(document) => Ok(
            ToolCallPart {
                call_id: copy_id(&call.id),
                name: copy_name(&call.function.name),
                arguments_part: ArgumentsPart::Parsed(document),
            },
        ),
        Err(diagnostic) => Err(ProviderError::ArgumentsParse(diagnostic)),
    }
}

/// A failure among the first tool calls is the failure of them all.
proof fn lemma_failure_stays(calls: Seq<OpenRouterToolCall>, upto: int)
    requires
        0 <= upto <= calls.len(),
        all_parsed(calls.take(upto)) is Err,
    ensures
        all_parsed(calls) == all_parsed(calls.take(upto)),
    decreases calls.len(),
{
    if upto < calls.len() {
        assert(calls.drop_last().take(upto) == calls.take(upto));
        lemma_failure_stays(calls.drop_last(), upto);
    } else {
        assert(calls.take(upto) == calls);
    }
}

/// Adds the tool calls of a complete message to a response, each with its
/// arguments parsed; fails at the first whose arguments are no JSON document.
fn with_parsed_calls(response: Response, calls: &Vec<OpenRouterToolCall>) -> (result: Result<
    Response,
    ProviderError,
>)
    requires
        response@.tool_calls.len() == 0,
    ensures
        outcome(result) == match all_parsed(calls@) {
            Ok(parts) => Ok(ResponseModel { tool_calls: parts, ..response@ }),
            Err(failure) => Err(failure),
        },
{
    let mut resp = response;
    let mut i: usize = 0;
    proof {
        assert(resp@.tool_calls =~= Seq::empty());
    }
    while i < calls.len()
        invariant
            i <= calls@.len(),
            all_parsed(calls@.take(i as int)) == Ok::<Seq<PartModel>, ProviderErrorModel>(
                resp@.tool_calls,
            ),
            resp@.content == response@.content,
            resp@.finish_reason == response@.finish_reason,
        decreases calls@.len() - i,
    {
        let call = &calls[i];
        proof {
            let head = calls@.take(i + 1);
            assert(head.drop_last() == calls@.take(i as int));
            assert(head.last() == *call);
        }
        match parsed_part(call, parse(call.function.arguments.as_str())) {
            Ok(part) => {
                resp = resp.add_tool_call(part);
            },
            Err(failure) => {
                proof {
                    lemma_failure_stays(calls@, i + 1);
                }
                return Err(failure);
            },
        }
        i += 1;
    }
    proof {
        assert(calls@.take(i as int) == calls@);
    }
    Ok(resp)
}

/// Adds the tool calls of a streamed chunk to a response, each with its
/// arguments as the raw fragment.
fn with_fragment_calls(response: Response, calls: &Vec<OpenRouterToolCall>) -> (result: Response)
    requires
        response@.tool_calls.len() == 0,
    ensures
        result@ == (ResponseModel { tool_calls: fragments_of(calls@), ..response@ }),
{
    let mut resp = response;
    let mut i: usize = 0;
    while i < calls.len()
        invariant
            i <= calls@.len(),
            resp@.tool_calls == fragments_of(calls@.take(i as int)),
            resp@.content == response@.content,
            resp@.finish_reason == response@.finish_reason,
        decreases calls@.len() - i,
    {
        let ghost before = resp@.tool_calls;
        resp = resp.add_tool_call(fragment_part(&calls[i]));
        proof {
            assert(before.push(fragment_of(calls@[i as int])) =~= fragments_of(
                calls@.take(i + 1),
            ));
        }
        i += 1;
    }
    proof {
        assert(calls@.take(i as int) == calls@);
    }
    resp
}

impl Response {
    /// Adapts a provider response: the first choice becomes the assistant
    /// response; a response without choices fails with `EmptyResponse`, and a
    /// complete message with a tool call whose arguments are no JSON document
    /// fails with `ArgumentsParse`.
    pub fn try_from(res: OpenRouterResponse) -> (result: Result<Response, ProviderError>)
        ensures
            outcome(result) == adapted(res),
    {
        if res.choices.len() == 0 {
            return Err(ProviderError::empty_response("Open Router"));
        }
        Response::from_choice(&res.choices[0])
    }

    /// Adapts one choice.
    pub fn from_choice(choice: &Choice) -> (result: Result<Response, ProviderError>)
        ensures
            outcome(result) == adapted_choice(*choice),
    {
        match choice {
            Choice::NonChat { text, finish_reason, .. } => {
                Ok(Response::assistant(text.clone()).finish_reason_opt(parse_finish_reason(finish_reason)))
            },
            Choice::NonStreaming { message, finish_reason, .. } => {
                let resp = Response::assistant(text_or_empty(&message.content)).finish_reason_opt(
                    parse_finish_reason(finish_reason),
                );
                match &message.tool_calls {
                    Some(tool_calls) => with_parsed_calls(resp, tool_calls),
                    None => Ok(resp),
                }
            },
            Choice::Streaming { delta, finish_reason, .. } => {
                let resp = Response::assistant(text_or_empty(&delta.content)).finish_reason_opt(
                    parse_finish_reason(finish_reason),
                );
                match &delta.tool_calls {
                    Some(tool_calls) => Ok(with_fragment_calls(resp, tool_calls)),
                    None => {
                        assert(fragments_of(calls_of(*delta)) =~= Seq::empty());
                        Ok(resp)
                    },
                }
            },
        }
    }
}

/// The wire token of a choice's finish reason, where it has one.
pub open spec fn finish_token(choice: Choice) -> Option<String> {
    match choice {
        Choice::NonChat { finish_reason, .. } => finish_reason,
        Choice::NonStreaming { finish_reason, .. } => finish_reason,
        Choice::Streaming { finish_reason, .. } => finish_reason,
    }
}

/// The tool calls of a choice; a text completion has none.
pub open spec fn tool_calls_of(choice: Choice) -> Seq<OpenRouterToolCall> {
    match choice {
        Choice::NonChat { .. } => Seq::empty(),
        Choice::NonStreaming { message, .. } => calls_of(message),
        Choice::Streaming { delta, .. } => calls_of(delta),
    }
}

/// The arguments of every one of the tool calls are JSON documents.
pub open spec fn all_json(calls: Seq<OpenRouterToolCall>) -> bool {
    forall|i: int| 0 <= i < calls.len() ==> is_json(#[trigger] calls[i].function.arguments@)
}

/// A response without choices fails with `EmptyResponse`, which names the
/// provider.
pub proof fn lemma_empty_choices(response: OpenRouterResponse)
    requires
        response.choices@.len() == 0,
    ensures
        adapted(response) == Err::<ResponseModel, ProviderErrorModel>(
            ProviderErrorModel::EmptyResponse("Open Router"@),
        ),
{
}

/// Only the first choice of a response counts.
pub proof fn lemma_first_choice_decides(first: OpenRouterResponse, second: OpenRouterResponse)
    requires
        first.choices@.len() > 0,
        second.choices@.len() > 0,
        first.choices@[0] == second.choices@[0],
    ensures
        adapted(first) == adapted(second),
{
}

/// The tool calls of a complete message are adapted exactly when the
/// arguments of each are a JSON document; the parts then stand in the order
/// of the calls, each with the identifier and name of its call and with the
/// parsed document; else the failure is `ArgumentsParse` with the diagnostic
/// of the first call whose arguments are none.
pub proof fn lemma_all_parsed(calls: Seq<OpenRouterToolCall>)
    ensures
        all_parsed(calls) is Ok <==> all_json(calls),
        all_parsed(calls) matches Ok(parts) ==> parts.len() == calls.len() && forall|i: int|
            0 <= i < calls.len() ==> #[trigger] parts[i] == part_of(
                calls[i],
                ArgumentsModel::Parsed(json_parse(calls[i].function.arguments@)->Ok_0),
            ),
        all_parsed(calls) matches Err(failure) ==> exists|k: int|
            0 <= k < calls.len() && all_json(calls.take(k)) && !is_json(
                #[trigger] calls[k].function.arguments@,
            ) && failure == ProviderErrorModel::ArgumentsParse(
                json_parse(calls[k].function.arguments@)->Err_0,
            ),
    decreases calls.len(),
{
    if calls.len() > 0 {
        let head = calls.drop_last();
        lemma_all_parsed(head);
        assert forall|i: int| 0 <= i < head.len() implies head[i] == calls[i] by {}
        match all_parsed(head) {
            Err(failure) => {
                let k = choose|k: int|
                    0 <= k < head.len() && all_json(head.take(k)) && !is_json(
                        #[trigger] head[k].function.arguments@,
                    ) && failure == ProviderErrorModel::ArgumentsParse(
                        json_parse(head[k].function.arguments@)->Err_0,
                    );
                assert(head.take(k) == calls.take(k));
                assert(!is_json(calls[k].function.arguments@));
            },
            Ok(parts) => {
                let k = calls.len() - 1;
                assert(calls.take(k) == head);
                if is_json(calls.last().function.arguments@) {
                    assert forall|i: int| 0 <= i < calls.len() implies is_json(
                        #[trigger] calls[i].function.arguments@,
                    ) by {
                        if i < k {
                            assert(head[i] == calls[i]);
                        }
                    }
                } else {
                    assert(!is_json(calls[k].function.arguments@));
                }
            },
        }
    }
}

/// A complete message without content adapts to empty content.
pub proof fn lemma_absent_content(choice: Choice)
    requires
        choice matches Choice::NonStreaming { message, .. } && message.content is None,
    ensures
        adapted_choice(choice) matches Ok(response) ==> response.content == Seq::<char>::empty(),
{
}

/// The finish reason of an adapted choice is the one that its wire token
/// stands for: absent where the token is absent or unknown.
pub proof fn lemma_finish_reason(choice: Choice)
    ensures
        adapted_choice(choice) matches Ok(response) ==> response.finish_reason == reason_of(
            finish_token(choice),
        ),
{
}

/// The tool calls of an adapted choice are those of the choice, in the same
/// order, each with its identifier and its name.
pub proof fn lemma_tool_call_order(choice: Choice)
    ensures
        adapted_choice(choice) matches Ok(response) ==> response.tool_calls.len() == tool_calls_of(
            choice,
        ).len() && forall|i: int|
            0 <= i < response.tool_calls.len() ==> (#[trigger] response.tool_calls[i]).call_id
                == id_text(tool_calls_of(choice)[i].id) && response.tool_calls[i].name == name_text(
                tool_calls_of(choice)[i].function.name,
            ),
{
    lemma_all_parsed(tool_calls_of(choice));
}

/// A streamed chunk always adapts, and the arguments of each of its tool
/// calls are the raw text of the call, character for character.
pub proof fn lemma_streamed_arguments_raw(choice: Choice)
    requires
        choice is Streaming,
    ensures
        adapted_choice(choice) is Ok,
        forall|i: int|
            0 <= i < tool_calls_of(choice).len() ==> (#[trigger] adapted_choice(
                choice,
            )->Ok_0.tool_calls[i]).arguments_part == ArgumentsModel::Fragment(
                tool_calls_of(choice)[i].function.arguments@,
            ),
{
}

/// A complete message fails to adapt exactly when the arguments of one of
/// its tool calls are no JSON document, and then with `ArgumentsParse`; where
/// it adapts, the arguments of each part are the parsed document.
pub proof fn lemma_complete_message_arguments(choice: Choice)
    requires
        choice is NonStreaming,
    ensures
        adapted_choice(choice) is Err <==> !all_json(tool_calls_of(choice)),
        adapted_choice(choice) matches Err(failure) ==> failure is ArgumentsParse,
        adapted_choice(choice) matches Ok(response) ==> forall|i: int|
            0 <= i < tool_calls_of(choice).len() ==> (#[trigger] response.tool_calls[i]).arguments_part
                == ArgumentsModel::Parsed(
                json_parse(tool_calls_of(choice)[i].function.arguments@)->Ok_0,
            ),
{
    lemma_all_parsed(tool_calls_of(choice));
}

/// A text completion always adapts, to its text and no tool calls.
pub proof fn lemma_text_completion(choice: Choice)
    requires
        choice is NonChat,
    ensures
        adapted_choice(choice) matches Ok(response) && response.content == choice->text@
            && response.tool_calls.len() == 0,
{
}

} // verus!
