//! The conversation orchestrator: the decisions of the retrieval loop, from
//! each outcome of an outside call to the next step.
//!
//! The caller performs each [`Action`] (a completion request over the
//! history, a retrieval) and hands the outcome back; the conversation records
//! the history and the progress events and says what to do next.
//!
//! The retrieval loop is bounded: past a configured number of retrievals it
//! fails with `LoopExceeded`. A retrieval that repeats an earlier one (same
//! tool, query and path) is not dispatched again: the engine is told so and
//! asked for its next step.
use vstd::prelude::*;
use crate::constants::{PATH_SEARCH_LIMIT, RELEVANT_CHUNKS_LIMIT, RELEVANT_FILES_LIMIT};
use crate::data::{
    ConversationError, FunctionCallText, Message, ParsedFunctionCall, Query, RelevantChunk, Role,
    arg_value, call_arguments, call_is_readable, call_name, chunk_text, error_text,
};
use crate::events::{EventKind, QueryEvent, event_is};
use crate::functions::{Function, function_name, function_named};
use crate::json::{json_string_field, json_string_literal, string_literal};
use crate::prompts::{
    ToolChoice, ANSWER_PROMPT, SANITIZE_PROMPT_HEAD, SANITIZE_PROMPT_TAIL, SYSTEM_PROMPT,
    answer_generation_prompt, sanitize_query_prompt, system_message, without_backticks,
};
use crate::text::{join, joined, owned, same_text, views};

verus! {

/// Why the completion engine stopped.
#[derive(Debug, Clone, Copy, PartialEq, Eq, Structural)]
pub enum FinishReason {
    /// It answered in text.
    Stop,
    /// It asked for a tool call.
    FunctionCall,
    /// Any other reason (length, content filter, none given).
    Other,
}

/// What the completion engine returned for one request.
#[derive(Debug, Clone)]
pub struct CompletionOutcome {
    pub finish_reason: FinishReason,
    pub content: Option<String>,
    pub function_call: Option<FunctionCallText>,
}

/// The text of an outcome: empty when it has none.
pub open spec fn answer_of(o: CompletionOutcome) -> Seq<char> {
    match o.content {
        Some(c) => c@,
        None => Seq::empty(),
    }
}

/// The question extracted by a sanitizing completion: present only when the
/// engine stopped with a non-empty text.
pub open spec fn sanitized(o: CompletionOutcome) -> Option<Seq<char>> {
    if o.finish_reason is Stop && answer_of(o).len() > 0 {
        Some(answer_of(o))
    } else {
        None
    }
}

fn content_or_empty(content: &Option<String>) -> (r: String)
    ensures
        r@ == (match content {
            Some(c) => c@,
            None => Seq::empty(),
        }),
{
    match content {
        Some(c) => c.clone(),
        None => String::new(),
    }
}

/// The question that a sanitizing completion extracted from a raw query.
pub fn sanitize_query(o: &CompletionOutcome) -> (r: Result<String, ConversationError>)
    ensures
        match r {
            Ok(q) => sanitized(*o) == Some(q@),
            Err(e) => sanitized(*o) is None && e == ConversationError::SanitizationFailed,
        },
{
    match o.finish_reason {
        FinishReason::Stop => {
            let q = content_or_empty(&o.content);
            if q.as_str().unicode_len() == 0 {
                Err(ConversationError::SanitizationFailed)
            } else {
                Ok(q)
            }
        },
        _ => Err(ConversationError::SanitizationFailed),
    }
}

/// A retrieval to perform.
#[derive(Debug, Clone)]
pub enum ToolRequest {
    /// The `top_chunks` best chunks of each of the `top_files` files nearest to `query`.
    SearchDocuments { query: String, top_files: usize, top_chunks: usize },
    /// The `top_chunks` best chunks of the file at `path` for `query`.
    SearchFile { path: String, query: String, top_chunks: usize },
    /// The `limit` indexed paths closest to `path`.
    SearchPath { path: String, limit: usize },
}

/// Whether `r` is the retrieval that `call` asks for.
pub open spec fn dispatches(call: ParsedFunctionCall, r: ToolRequest) -> bool {
    match call.name {
        Function::SearchDocuments => r matches ToolRequest::SearchDocuments { query, top_files, top_chunks }
            && query@ == call.args.query@ && top_files == RELEVANT_FILES_LIMIT && top_chunks == RELEVANT_CHUNKS_LIMIT,
        Function::SearchFile => r matches ToolRequest::SearchFile { path, query, top_chunks }
            && path@ == call.args.path@ && query@ == call.args.query@ && top_chunks == RELEVANT_CHUNKS_LIMIT,
        Function::SearchPath => r matches ToolRequest::SearchPath { path, limit }
            && path@ == call.args.path@ && limit == PATH_SEARCH_LIMIT,
        Function::Done => false,
    }
}

/// Routes a tool call to its retrieval; `done` has none.
pub fn dispatch(call: &ParsedFunctionCall) -> (r: Option<ToolRequest>)
    ensures
        match r {
            Some(t) => dispatches(*call, t),
            None => call.name == Function::Done,
        },
{
    match call.name {
        Function::SearchDocuments => Some(ToolRequest::SearchDocuments {
            query: call.args.query.clone(),
            top_files: RELEVANT_FILES_LIMIT,
            top_chunks: RELEVANT_CHUNKS_LIMIT,
        }),
        Function::SearchFile => Some(ToolRequest::SearchFile {
            path: call.args.path.clone(),
            query: call.args.query.clone(),
            top_chunks: RELEVANT_CHUNKS_LIMIT,
        }),
        Function::SearchPath => Some(ToolRequest::SearchPath { path: call.args.path.clone(), limit: PATH_SEARCH_LIMIT }),
        Function::Done => None,
    }
}

/// The event published before a retrieval for a tool.
pub open spec fn tool_event(f: Function) -> EventKind {
    match f {
        Function::SearchDocuments => EventKind::SearchDocuments,
        Function::SearchFile => EventKind::SearchFile,
        Function::SearchPath => EventKind::SearchPath,
        Function::Done => EventKind::GenerateResponse,
    }
}

fn tool_event_kind(f: Function) -> (r: EventKind)
    ensures
        r == tool_event(f),
{
    match f {
        Function::SearchDocuments => EventKind::SearchDocuments,
        Function::SearchFile => EventKind::SearchFile,
        Function::SearchPath => EventKind::SearchPath,
        Function::Done => EventKind::GenerateResponse,
    }
}

/// What a retrieval found.
#[derive(Debug, Clone)]
pub enum ToolOutput {
    Chunks(Vec<RelevantChunk>),
    Paths(Vec<String>),
}

/// The texts of chunks, as shown to the completion engine.
pub open spec fn chunk_texts(chunks: Seq<RelevantChunk>) -> Seq<Seq<char>> {
    chunks.map_values(|c: RelevantChunk| chunk_text(c.path@, c.content@))
}

/// The content of the tool-result message for a retrieval's output: chunks
/// separated by a blank line, paths one per line.
pub open spec fn output_text(out: ToolOutput) -> Seq<char> {
    match out {
        ToolOutput::Chunks(cs) => joined(chunk_texts(cs@), "\n\n"@),
        ToolOutput::Paths(ps) => joined(views(ps@), "\n"@),
    }
}

/// Writes a retrieval's output as the content of a tool-result message.
pub fn output_to_text(out: &ToolOutput) -> (r: String)
    ensures
        r@ == output_text(*out),
{
    match out {
        ToolOutput::Chunks(cs) => {
            let mut texts: Vec<String> = Vec::new();
            let mut i: usize = 0;
            while i < cs.len()
                invariant
                    i <= cs@.len(),
                    texts@.len() == i,
                    forall|j: int| 0 <= j < i ==> (#[trigger] texts@[j])@ == chunk_text(cs@[j].path@, cs@[j].content@),
                decreases cs.len() - i,
            {
                texts.push(cs[i].to_string());
                i = i + 1;
            }
            assert(views(texts@) == chunk_texts(cs@));
            join(&texts, "\n\n")
        },
        ToolOutput::Paths(ps) => join(ps, "\n"),
    }
}

/// What the caller does next.
#[derive(Debug)]
pub enum Action {
    /// Ask the completion engine, over the history as it now stands.
    Complete(ToolChoice),
    /// Perform a retrieval and hand its outcome back.
    Retrieve(ToolRequest),
    /// The conversation is over: the answer, or why there is none.
    Finish(Result<String, ConversationError>),
}

/// Where a conversation stands.
#[derive(Debug, Clone, Copy, PartialEq, Eq, Structural)]
pub enum Phase {
    /// Waiting for the completion that extracts the question.
    Sanitizing,
    /// Waiting for a completion of the retrieval loop.
    AwaitingCompletion,
    /// Waiting for the outcome of a retrieval for this tool.
    Dispatching(Function),
    /// Waiting for the completion that writes the final answer.
    GeneratingAnswer,
    Done,
    Failed,
}

/// One conversation: a question, the history sent to the completion engine
/// and the progress events not yet handed out.
pub struct Conversation {
    query: Query,
    messages: Vec<Message>,
    phase: Phase,
    events: Vec<QueryEvent>,
    requests: usize,
    max_requests: usize,
    issued: Vec<(Function, String, String)>,
}

/// Whether `m` is the assistant message that carries `call`.
pub open spec fn is_call_message(m: Message, call: FunctionCallText) -> bool {
    m.role == Role::Assistant && m.content@.len() == 0 && m.name is None && m.function_call == Some(call)
}

/// Whether `m` is the system message holding `text`.
pub open spec fn is_system_message(m: Message, text: Seq<char>) -> bool {
    m.role == Role::System && m.content@ == text && m.name is None && m.function_call is None
}

/// Whether `m` is a message of role `role` holding `text` and nothing else.
pub open spec fn is_plain_message(m: Message, role: Role, text: Seq<char>) -> bool {
    m.role == role && m.content@ == text && m.name is None && m.function_call is None
}

/// Whether `m` is the tool-result message for tool `f` with output `out`.
pub open spec fn is_result_message(m: Message, f: Function, out: ToolOutput) -> bool {
    &&& m.role == Role::Function
    &&& m.content@ == output_text(out)
    &&& m.name.deep_view() == Some(function_name(f))
    &&& m.function_call is None
}

/// What tells one retrieval from another: the tool, its query and its path.
pub open spec fn call_key(call: FunctionCallText) -> (Function, Seq<char>, Seq<char>) {
    (
        call_function(call),
        arg_value(json_string_field(call_arguments(call), "query"@)),
        arg_value(json_string_field(call_arguments(call), "path"@)),
    )
}

/// The reply given in place of a retrieval that was already made.
pub const REPEAT_NOTE: &'static str = "This function was already called with the same arguments; its result is above.";

/// Whether `m` is the tool-result message that refuses a repeated call of `f`.
pub open spec fn is_repeat_message(m: Message, f: Function) -> bool {
    &&& m.role == Role::Function
    &&& m.content@ == REPEAT_NOTE@
    &&& m.name.deep_view() == Some(function_name(f))
    &&& m.function_call is None
}

/// The tool that a readable call names.
pub open spec fn call_function(call: FunctionCallText) -> Function {
    function_named(call_name(call))->Some_0
}

/// The retrieval that a readable call asks for.
pub open spec fn requests_tool(call: FunctionCallText, r: ToolRequest) -> bool {
    let query = arg_value(json_string_field(call_arguments(call), "query"@));
    let path = arg_value(json_string_field(call_arguments(call), "path"@));
    match call_function(call) {
        Function::SearchDocuments => r matches ToolRequest::SearchDocuments { query: q, top_files, top_chunks }
            && q@ == query && top_files == RELEVANT_FILES_LIMIT && top_chunks == RELEVANT_CHUNKS_LIMIT,
        Function::SearchFile => r matches ToolRequest::SearchFile { path: p, query: q, top_chunks }
            && p@ == path && q@ == query && top_chunks == RELEVANT_CHUNKS_LIMIT,
        Function::SearchPath => r matches ToolRequest::SearchPath { path: p, limit }
            && p@ == path && limit == PATH_SEARCH_LIMIT,
        Function::Done => false,
    }
}

impl Conversation {
    /// The conversation's own bookkeeping is consistent: the limit holds, and
    /// the history is seeded in every phase that sends it.
    pub closed spec fn wf(&self) -> bool {
        &&& self.requests <= self.max_requests
        &&& match self.phase {
            Phase::Sanitizing => self.messages@.len() == 1,
            Phase::Done | Phase::Failed => true,
            _ => self.messages@.len() >= 2,
        }
    }

    /// Where the conversation stands.
    pub closed spec fn spec_phase(&self) -> Phase {
        self.phase
    }

    /// The history sent with the next completion request.
    pub closed spec fn spec_messages(&self) -> Seq<Message> {
        self.messages@
    }

    /// The progress events not yet handed out, oldest first.
    pub closed spec fn spec_events(&self) -> Seq<QueryEvent> {
        self.events@
    }

    /// The question: raw until sanitized, then as the engine extracted it.
    pub closed spec fn spec_query(&self) -> Seq<char> {
        self.query.query@
    }

    /// How many retrievals (and repeated requests) the loop has spent.
    pub closed spec fn spec_requests(&self) -> nat {
        self.requests as nat
    }

    /// The retrievals dispatched so far: tool, query and path.
    pub closed spec fn spec_issued(&self) -> Seq<(Function, Seq<char>, Seq<char>)> {
        self.issued@.map_values(|c: (Function, String, String)| (c.0, c.1@, c.2@))
    }

    /// How many the loop may spend.
    pub closed spec fn spec_max_requests(&self) -> nat {
        self.max_requests as nat
    }

    /// Whether the conversation is over.
    pub open spec fn is_over(&self) -> bool {
        self.spec_phase() is Done || self.spec_phase() is Failed
    }

    /// Whether `b` keeps `a`'s query, limit and dispatched retrievals.
    pub open spec fn same_setting(a: Conversation, b: Conversation) -> bool {
        &&& b.spec_query() == a.spec_query()
        &&& b.spec_max_requests() == a.spec_max_requests()
        &&& b.spec_issued() == a.spec_issued()
    }

    /// Whether `b`'s events are `a`'s followed by one of kind `k` with payload `data`.
    pub open spec fn adds_event(a: Conversation, b: Conversation, k: EventKind, data: Option<Seq<char>>) -> bool {
        &&& b.spec_events().len() == a.spec_events().len() + 1
        &&& b.spec_events().subrange(0, a.spec_events().len() as int) == a.spec_events()
        &&& event_is(b.spec_events().last(), k, data)
    }

    /// The step from `a` to `b` fails the conversation with `e`.
    pub open spec fn fails_with(a: Conversation, b: Conversation, e: ConversationError, r: Action) -> bool {
        &&& Conversation::same_setting(a, b)
        &&& b.spec_messages() == a.spec_messages()
        &&& b.spec_requests() == a.spec_requests()
        &&& b.spec_phase() == Phase::Failed
        &&& Conversation::adds_event(a, b, EventKind::Error, Some(json_string_literal(error_text(e))))
        &&& r matches Action::Finish(Err(x)) && x == e
    }

    /// The step from `a` to `b` ends the conversation with `answer`.
    pub open spec fn answers_with(a: Conversation, b: Conversation, answer: Seq<char>, r: Action) -> bool {
        &&& Conversation::same_setting(a, b)
        &&& b.spec_messages() == a.spec_messages()
        &&& b.spec_requests() == a.spec_requests()
        &&& b.spec_phase() == Phase::Done
        &&& Conversation::adds_event(a, b, EventKind::Done, Some(json_string_literal(answer)))
        &&& r matches Action::Finish(Ok(t)) && t@ == answer
    }

    /// The step that a tool call asked for in the retrieval loop takes from
    /// `a` to `b`, with next action `r`.
    pub open spec fn call_step(a: Conversation, call: FunctionCallText, b: Conversation, r: Action) -> bool {
        if !call_is_readable(call) {
            Conversation::fails_with(a, b, ConversationError::ToolDispatchFailed, r)
        } else if call_function(call) == Function::Done {
            &&& Conversation::same_setting(a, b)
            &&& b.spec_phase() == Phase::GeneratingAnswer
            &&& b.spec_requests() == a.spec_requests()
            &&& b.spec_messages().len() == a.spec_messages().len() + 1
            &&& is_system_message(b.spec_messages()[0], ANSWER_PROMPT@)
            &&& forall|i: int| 1 <= i < a.spec_messages().len()
                ==> #[trigger] b.spec_messages()[i] == a.spec_messages()[i]
            &&& is_call_message(b.spec_messages().last(), call)
            &&& Conversation::adds_event(a, b, EventKind::GenerateResponse, None)
            &&& r matches Action::Complete(ToolChoice::Off)
        } else if a.spec_requests() >= a.spec_max_requests() {
            Conversation::fails_with(a, b, ConversationError::LoopExceeded, r)
        } else if a.spec_issued().contains(call_key(call)) {
            &&& Conversation::same_setting(a, b)
            &&& b.spec_phase() == Phase::AwaitingCompletion
            &&& b.spec_requests() == a.spec_requests() + 1
            &&& b.spec_events() == a.spec_events()
            &&& b.spec_messages().len() == a.spec_messages().len() + 2
            &&& b.spec_messages().subrange(0, a.spec_messages().len() as int) == a.spec_messages()
            &&& is_call_message(b.spec_messages()[a.spec_messages().len() as int], call)
            &&& is_repeat_message(b.spec_messages().last(), call_function(call))
            &&& r matches Action::Complete(ToolChoice::Auto)
        } else {
            &&& b.spec_query() == a.spec_query()
            &&& b.spec_max_requests() == a.spec_max_requests()
            &&& b.spec_issued() == a.spec_issued().push(call_key(call))
            &&& b.spec_phase() == Phase::Dispatching(call_function(call))
            &&& b.spec_requests() == a.spec_requests() + 1
            &&& b.spec_messages().len() == a.spec_messages().len() + 1
            &&& b.spec_messages().drop_last() == a.spec_messages()
            &&& is_call_message(b.spec_messages().last(), call)
            &&& Conversation::adds_event(
                a, b, tool_event(call_function(call)), Some(call_arguments(call)))
            &&& r matches Action::Retrieve(t) && requests_tool(call, t)
        }
    }

    /// The step that the completion outcome `o` takes from `a` to `b`, with
    /// next action `r`.
    pub open spec fn completion_step(a: Conversation, o: CompletionOutcome, b: Conversation, r: Action) -> bool {
        match a.spec_phase() {
            Phase::Sanitizing => match sanitized(o) {
                Some(q) => {
                    &&& b.spec_phase() == Phase::AwaitingCompletion
                    &&& b.spec_query() == q
                    &&& b.spec_max_requests() == a.spec_max_requests()
                    &&& b.spec_issued() == a.spec_issued()
                    &&& b.spec_requests() == a.spec_requests()
                    &&& b.spec_messages().len() == 2
                    &&& is_system_message(b.spec_messages()[0], SYSTEM_PROMPT@)
                    &&& is_plain_message(b.spec_messages()[1], Role::User, q)
                    &&& Conversation::adds_event(a, b, EventKind::ProcessQuery, None)
                    &&& r matches Action::Complete(ToolChoice::Auto)
                },
                None => Conversation::fails_with(a, b, ConversationError::SanitizationFailed, r),
            },
            Phase::GeneratingAnswer => Conversation::answers_with(a, b, answer_of(o), r),
            _ => match o.finish_reason {
                FinishReason::Stop => Conversation::answers_with(a, b, answer_of(o), r),
                FinishReason::Other => Conversation::fails_with(
                    a, b, ConversationError::UnexpectedCompletionOutcome, r),
                FinishReason::FunctionCall => match o.function_call {
                    None => if a.spec_requests() < a.spec_max_requests() {
                        &&& Conversation::same_setting(a, b)
                        &&& b.spec_phase() == Phase::AwaitingCompletion
                        &&& b.spec_messages() == a.spec_messages()
                        &&& b.spec_events() == a.spec_events()
                        &&& b.spec_requests() == a.spec_requests() + 1
                        &&& r matches Action::Complete(ToolChoice::Auto)
                    } else {
                        Conversation::fails_with(a, b, ConversationError::LoopExceeded, r)
                    },
                    Some(call) => Conversation::call_step(a, call, b, r),
                },
            },
        }
    }

    /// The step that the retrieval outcome `result` takes from `a` to `b`,
    /// with next action `r`.
    pub open spec fn tool_result_step(
        a: Conversation,
        result: Result<ToolOutput, ConversationError>,
        b: Conversation,
        r: Action,
    ) -> bool {
        match result {
            Ok(out) => {
                &&& Conversation::same_setting(a, b)
                &&& b.spec_phase() == Phase::AwaitingCompletion
                &&& b.spec_requests() == a.spec_requests()
                &&& b.spec_events() == a.spec_events()
                &&& b.spec_messages().len() == a.spec_messages().len() + 1
                &&& b.spec_messages().drop_last() == a.spec_messages()
                &&& is_result_message(b.spec_messages().last(), a.spec_phase()->Dispatching_0, out)
                &&& r matches Action::Complete(ToolChoice::Auto)
            },
            Err(e) => Conversation::fails_with(a, b, e, r),
        }
    }

    /// Starts a conversation on a raw query: the first step asks the
    /// completion engine, with no tool, for the question it holds.
    pub fn initiate(query: Query, max_requests: usize) -> (r: (Conversation, Action))
        ensures
            r.0.wf(),
            r.0.spec_phase() == Phase::Sanitizing,
            r.0.spec_query() == query.query@,
            r.0.spec_max_requests() == max_requests,
            r.0.spec_requests() == 0,
            r.0.spec_events().len() == 0,
            r.0.spec_issued().len() == 0,
            r.0.spec_messages().len() == 1,
            is_plain_message(
                r.0.spec_messages()[0],
                Role::User,
                SANITIZE_PROMPT_HEAD@ + without_backticks(query.query@) + SANITIZE_PROMPT_TAIL@,
            ),
            r.1 matches Action::Complete(ToolChoice::Off),
    {
        let prompt = sanitize_query_prompt(query.query.as_str());
        let messages = vec![Message::plain(Role::User, prompt)];
        let c = Conversation {
            query,
            messages,
            phase: Phase::Sanitizing,
            events: Vec::new(),
            requests: 0,
            max_requests,
            issued: Vec::new(),
        };
        (c, Action::Complete(ToolChoice::Off))
    }

    /// Where the conversation stands.
    pub fn phase(&self) -> (r: Phase)
        ensures
            r == self.spec_phase(),
    {
        self.phase
    }

    /// The history to send with the next completion request.
    pub fn messages(&self) -> (r: &Vec<Message>)
        ensures
            r@ == self.spec_messages(),
    {
        &self.messages
    }

    /// The question.
    pub fn query(&self) -> (r: &Query)
        ensures
            r.query@ == self.spec_query(),
    {
        &self.query
    }

    /// Hands out the progress events recorded since the last call, oldest
    /// first, and forgets them.
    pub fn take_events(&mut self) -> (r: Vec<QueryEvent>)
        requires
            old(self).wf(),
        ensures
            final(self).wf(),
            r@ == old(self).spec_events(),
            final(self).spec_events().len() == 0,
            final(self).spec_phase() == old(self).spec_phase(),
            final(self).spec_messages() == old(self).spec_messages(),
            final(self).spec_requests() == old(self).spec_requests(),
            Conversation::same_setting(*old(self), *final(self)),
    {
        let mut taken: Vec<QueryEvent> = Vec::new();
        std::mem::swap(&mut taken, &mut self.events);
        taken
    }

    fn emit(&mut self, kind: EventKind, data: Option<String>)
        ensures
            final(self).events@ == old(self).events@.push(QueryEvent { kind, data }),
            Conversation::adds_event(*old(self), *final(self), kind, data.deep_view()),
            final(self).phase == old(self).phase,
            final(self).messages == old(self).messages,
            final(self).requests == old(self).requests,
            final(self).max_requests == old(self).max_requests,
            final(self).query == old(self).query,
            final(self).issued == old(self).issued,
    {
        self.events.push(QueryEvent { kind, data });
        assert(self.events@.subrange(0, old(self).events@.len() as int) == old(self).events@);
    }

    fn fail(&mut self, e: ConversationError) -> (r: Action)
        requires
            old(self).requests <= old(self).max_requests,
        ensures
            Conversation::fails_with(*old(self), *final(self), e, r),
    {
        let data = string_literal(e.description());
        self.emit(EventKind::Error, Some(data));
        self.phase = Phase::Failed;
        Action::Finish(Err(e))
    }

    fn finish(&mut self, answer: String) -> (r: Action)
        requires
            old(self).requests <= old(self).max_requests,
        ensures
            Conversation::answers_with(*old(self), *final(self), answer@, r),
    {
        let data = string_literal(answer.as_str());
        self.emit(EventKind::Done, Some(data));
        self.phase = Phase::Done;
        Action::Finish(Ok(answer))
    }

    /// Takes the outcome of the completion requested last.
    ///
    /// While sanitizing: a question seeds the history with the retrieval
    /// instruction and the question; anything else fails the conversation.
    /// In the retrieval loop: a text answer ends the conversation; a call of
    /// `done` switches the instruction to answer writing and asks once more
    /// with no tool; a call of another tool asks for its retrieval, unless
    /// the loop has spent its limit; any other outcome fails. When writing
    /// the answer: its text ends the conversation.
    pub fn on_completion(&mut self, o: CompletionOutcome) -> (r: Action)
        requires
            old(self).wf(),
            old(self).spec_phase() is Sanitizing
                || old(self).spec_phase() is AwaitingCompletion
                || old(self).spec_phase() is GeneratingAnswer,
        ensures
            final(self).wf(),
            Conversation::completion_step(*old(self), o, *final(self), r),
    {
        match self.phase {
            Phase::Sanitizing => {
                match sanitize_query(&o) {
                    Ok(q) => {
                        let user = Message::plain(Role::User, q.clone());
                        self.messages = vec![Message::plain(Role::System, system_message()), user];
                        self.query = Query { query: q };
                        self.phase = Phase::AwaitingCompletion;
                        self.emit(EventKind::ProcessQuery, None);
                        Action::Complete(ToolChoice::Auto)
                    },
                    Err(e) => self.fail(e),
                }
            },
            Phase::GeneratingAnswer => {
                let answer = content_or_empty(&o.content);
                self.finish(answer)
            },
            _ => {
                match o.finish_reason {
                    FinishReason::Stop => {
                        let answer = content_or_empty(&o.content);
                        self.finish(answer)
                    },
                    FinishReason::Other => self.fail(ConversationError::UnexpectedCompletionOutcome),
                    FinishReason::FunctionCall => {
                        match o.function_call {
                            None => {
                                if self.requests < self.max_requests {
                                    self.requests = self.requests + 1;
                                    Action::Complete(ToolChoice::Auto)
                                } else {
                                    self.fail(ConversationError::LoopExceeded)
                                }
                            },
                            Some(call) => self.take_call(call),
                        }
                    },
                }
            },
        }
    }

    fn take_call(&mut self, call: FunctionCallText) -> (r: Action)
        requires
            old(self).phase is AwaitingCompletion,
            old(self).messages@.len() >= 2,
            old(self).requests <= old(self).max_requests,
        ensures
            final(self).messages@.len() >= 2,
            final(self).requests <= final(self).max_requests,
            Conversation::call_step(*old(self), call, *final(self), r),
    {
        let parsed = match ParsedFunctionCall::parse(&call) {
            Ok(p) => p,
            Err(e) => return self.fail(e),
        };
        match dispatch(&parsed) {
            None => {
                let ghost before = self.messages@;
                self.messages.push(Message { role: Role::Assistant, content: String::new(), name: None, function_call: Some(call) });
                self.messages.set(0, Message::plain(Role::System, answer_generation_prompt()));
                assert forall|i: int| 1 <= i < before.len() implies #[trigger] self.messages@[i] == before[i] by {}
                self.phase = Phase::GeneratingAnswer;
                self.emit(EventKind::GenerateResponse, None);
                Action::Complete(ToolChoice::Off)
            },
            Some(request) => {
                if self.requests >= self.max_requests {
                    return self.fail(ConversationError::LoopExceeded);
                }
                let call_message = Message { role: Role::Assistant, content: String::new(), name: None, function_call: Some(call) };
                self.requests = self.requests + 1;
                if self.was_issued(&parsed) {
                    let ghost before = self.messages@;
                    self.messages.push(call_message);
                    let note = Message { role: Role::Function, content: owned(REPEAT_NOTE), name: Some(owned(parsed.name.name())), function_call: None };
                    self.messages.push(note);
                    assert(self.messages@.subrange(0, before.len() as int) == before);
                    self.phase = Phase::AwaitingCompletion;
                    return Action::Complete(ToolChoice::Auto);
                }
                let kind = tool_event_kind(parsed.name);
                let ghost before_issued = self.issued@;
                self.issued.push((parsed.name, parsed.args.query, parsed.args.path));
                assert(self.issued@.map_values(|c: (Function, String, String)| (c.0, c.1@, c.2@))
                    == before_issued.map_values(|c: (Function, String, String)| (c.0, c.1@, c.2@)).push(call_key(call)));
                self.messages.push(call_message);
                assert(self.messages@.drop_last() == old(self).messages@);
                self.phase = Phase::Dispatching(parsed.name);
                self.emit(kind, Some(parsed.args.text));
                Action::Retrieve(request)
            },
        }
    }

    /// Whether a retrieval with the same tool, query and path was dispatched before.
    fn was_issued(&self, call: &ParsedFunctionCall) -> (r: bool)
        ensures
            r == self.spec_issued().contains((call.name, call.args.query@, call.args.path@)),
    {
        let ghost key = (call.name, call.args.query@, call.args.path@);
        let mut i: usize = 0;
        while i < self.issued.len()
            invariant
                i <= self.issued@.len(),
                key == (call.name, call.args.query@, call.args.path@),
                self.spec_issued().len() == self.issued@.len(),
                forall|j: int| 0 <= j < i ==> #[trigger] self.spec_issued()[j] != key,
            decreases self.issued.len() - i,
        {
            let (f, q, p) = &self.issued[i];
            assert(self.spec_issued()[i as int] == (*f, q@, p@));
            let same_tool = *f == call.name;
            let same_query = same_text(q.as_str(), call.args.query.as_str());
            let same_path = same_text(p.as_str(), call.args.path.as_str());
            if same_tool && same_query && same_path {
                assert(self.spec_issued()[i as int] == key);
                return true;
            }
            i = i + 1;
        }
        assert(!self.spec_issued().contains(key));
        false
    }

    /// Takes the outcome of the retrieval requested last: its output joins
    /// the history as a tool-result message and the loop asks for the next
    /// completion; an error ends the conversation, unchanged.
    pub fn on_tool_result(&mut self, result: Result<ToolOutput, ConversationError>) -> (r: Action)
        requires
            old(self).wf(),
            old(self).spec_phase() is Dispatching,
        ensures
            final(self).wf(),
            Conversation::tool_result_step(*old(self), result, *final(self), r),
    {
        let f = match self.phase {
            Phase::Dispatching(f) => f,
            _ => Function::Done,
        };
        match result {
            Ok(out) => {
                let content = output_to_text(&out);
                let name = owned(f.name());
                self.messages.push(Message { role: Role::Function, content, name: Some(name), function_call: None });
                assert(self.messages@.drop_last() == old(self).messages@);
                self.phase = Phase::AwaitingCompletion;
                Action::Complete(ToolChoice::Auto)
            },
            Err(e) => self.fail(e),
        }
    }

    /// Takes the failure of the outside call requested last (a timeout, an
    /// unreachable service): the conversation ends with that error.
    pub fn on_failure(&mut self, e: ConversationError) -> (r: Action)
        requires
            old(self).wf(),
            !old(self).is_over(),
        ensures
            final(self).wf(),
            Conversation::fails_with(*old(self), *final(self), e, r),
    {
        self.fail(e)
    }
}

/// The kinds of a sequence of events, in order.
pub open spec fn kinds(events: Seq<QueryEvent>) -> Seq<EventKind> {
    events.map_values(|e: QueryEvent| e.kind)
}

/// When the completion engine answers at once, without asking for a tool,
/// the conversation publishes exactly the query-received event and then the
/// done event, and ends with that answer.
pub proof fn lemma_direct_answer_events(
    c0: Conversation,
    o1: CompletionOutcome,
    c1: Conversation,
    r1: Action,
    o2: CompletionOutcome,
    c2: Conversation,
    r2: Action,
)
    requires
        c0.spec_phase() is Sanitizing,
        c0.spec_events().len() == 0,
        sanitized(o1) is Some,
        Conversation::completion_step(c0, o1, c1, r1),
        o2.finish_reason is Stop,
        Conversation::completion_step(c1, o2, c2, r2),
    ensures
        kinds(c2.spec_events()) == seq![EventKind::ProcessQuery, EventKind::Done],
        r2 matches Action::Finish(Ok(t)) && t@ == answer_of(o2),
{
    assert(c1.spec_events().len() == 1);
    assert(c2.spec_events()[0] == c1.spec_events()[0]);
    assert(kinds(c2.spec_events()) =~= seq![EventKind::ProcessQuery, EventKind::Done]);
}

/// When the completion engine asks for one document search and then for
/// `done`, the conversation publishes exactly the query-received,
/// searching-documents, generating-answer and done events; the history sent
/// with the final request holds the search's result after the call that
/// asked for it, under the answer-writing instruction.
pub proof fn lemma_one_search_events(
    c0: Conversation,
    o1: CompletionOutcome,
    c1: Conversation,
    r1: Action,
    call: FunctionCallText,
    o2: CompletionOutcome,
    c2: Conversation,
    r2: Action,
    out: ToolOutput,
    c3: Conversation,
    r3: Action,
    done: FunctionCallText,
    o4: CompletionOutcome,
    c4: Conversation,
    r4: Action,
    o5: CompletionOutcome,
    c5: Conversation,
    r5: Action,
)
    requires
        c0.spec_phase() is Sanitizing,
        c0.spec_events().len() == 0,
        c0.spec_issued().len() == 0,
        c0.spec_requests() < c0.spec_max_requests(),
        sanitized(o1) is Some,
        Conversation::completion_step(c0, o1, c1, r1),
        o2.finish_reason is FunctionCall,
        o2.function_call == Some(call),
        call_is_readable(call),
        call_function(call) == Function::SearchDocuments,
        Conversation::completion_step(c1, o2, c2, r2),
        Conversation::tool_result_step(c2, Ok(out), c3, r3),
        o4.finish_reason is FunctionCall,
        o4.function_call == Some(done),
        call_is_readable(done),
        call_function(done) == Function::Done,
        Conversation::completion_step(c3, o4, c4, r4),
        Conversation::completion_step(c4, o5, c5, r5),
    ensures
        kinds(c5.spec_events()) == seq![
            EventKind::ProcessQuery,
            EventKind::SearchDocuments,
            EventKind::GenerateResponse,
            EventKind::Done,
        ],
        r4 matches Action::Complete(ToolChoice::Off),
        c4.spec_messages().len() == 5,
        is_system_message(c4.spec_messages()[0], ANSWER_PROMPT@),
        is_call_message(c4.spec_messages()[2], call),
        is_result_message(c4.spec_messages()[3], Function::SearchDocuments, out),
        is_call_message(c4.spec_messages()[4], done),
        r5 matches Action::Finish(Ok(t)) && t@ == answer_of(o5),
{
    assert(c2.spec_phase() == Phase::Dispatching(Function::SearchDocuments));
    assert(c3.spec_messages()[3] == c3.spec_messages().last());
    assert(c3.spec_messages()[2] == c2.spec_messages().last());
    assert(c4.spec_messages()[3] == c3.spec_messages()[3]);
    assert(c4.spec_messages()[2] == c3.spec_messages()[2]);
    assert(c5.spec_events()[0] == c1.spec_events()[0]);
    assert(c5.spec_events()[1] == c2.spec_events()[1]);
    assert(c5.spec_events()[2] == c4.spec_events()[2]);
    assert(kinds(c5.spec_events()) =~= seq![
        EventKind::ProcessQuery,
        EventKind::SearchDocuments,
        EventKind::GenerateResponse,
        EventKind::Done,
    ]);
}

/// When the sanitizing completion fails, whether the engine gave no question
/// or the call itself failed, the conversation publishes the error event
/// alone and ends without a retrieval.
pub proof fn lemma_failed_sanitizing_events(
    c0: Conversation,
    o1: CompletionOutcome,
    e: ConversationError,
    c1: Conversation,
    r1: Action,
)
    requires
        c0.spec_phase() is Sanitizing,
        c0.spec_events().len() == 0,
        (sanitized(o1) is None && Conversation::completion_step(c0, o1, c1, r1))
            || Conversation::fails_with(c0, c1, e, r1),
    ensures
        kinds(c1.spec_events()) == seq![EventKind::Error],
        c1.spec_phase() == Phase::Failed,
        r1 is Finish,
{
    assert(kinds(c1.spec_events()) =~= seq![EventKind::Error]);
}

} // verus!
