//! The values that flow through a conversation: errors, messages, retrieved
//! chunks and parsed tool calls.
use vstd::prelude::*;
use crate::functions::{Function, function_named};
use crate::json::{json_string_field, string_field};
use crate::text::{owned, trim, trimmed};

verus! {

/// Why a conversation could not go on.
#[derive(Debug, Clone, Copy, PartialEq, Eq, Structural)]
pub enum ConversationError {
    /// The completion engine gave no usable question for the raw query.
    SanitizationFailed,
    /// A call to the completion engine or the index did not answer in time.
    DependencyTimeout,
    /// The completion engine ended for a reason the conversation cannot act on.
    UnexpectedCompletionOutcome,
    /// A tool call could not be read, or the retrieval behind it failed.
    ToolDispatchFailed,
    /// The file a tool asked for does not exist.
    FileNotFound,
    /// The conversation asked for more completions than it is allowed.
    LoopExceeded,
    /// The index holds nothing to search.
    NotIndexed,
}

/// A short human-readable description of each error.
pub open spec fn error_text(e: ConversationError) -> Seq<char> {
    match e {
        ConversationError::SanitizationFailed => "query sanitization failed"@,
        ConversationError::DependencyTimeout => "a dependency timed out"@,
        ConversationError::UnexpectedCompletionOutcome => "model returned an unexpected response"@,
        ConversationError::ToolDispatchFailed => "tool dispatch failed"@,
        ConversationError::FileNotFound => "file not found"@,
        ConversationError::LoopExceeded => "too many completion requests"@,
        ConversationError::NotIndexed => "repository is not indexed"@,
    }
}

impl ConversationError {
    /// A short human-readable description.
    pub fn description(&self) -> (r: &'static str)
        ensures
            r@ == error_text(*self),
    {
        match self {
            ConversationError::SanitizationFailed => "query sanitization failed",
            ConversationError::DependencyTimeout => "a dependency timed out",
            ConversationError::UnexpectedCompletionOutcome => "model returned an unexpected response",
            ConversationError::ToolDispatchFailed => "tool dispatch failed",
            ConversationError::FileNotFound => "file not found",
            ConversationError::LoopExceeded => "too many completion requests",
            ConversationError::NotIndexed => "repository is not indexed",
        }
    }
}

/// Who wrote a message of the history.
#[derive(Debug, Clone, Copy, PartialEq, Eq, Structural)]
pub enum Role {
    System,
    User,
    Assistant,
    /// The result of a tool call.
    Function,
}

/// A tool call as the completion engine sent it: both parts may be missing.
#[derive(Debug, Clone)]
pub struct FunctionCallText {
    pub name: Option<String>,
    pub arguments: Option<String>,
}

/// One message of the conversation history.
#[derive(Debug, Clone)]
pub struct Message {
    pub role: Role,
    pub content: String,
    /// The tool whose result this is, for a tool-result message.
    pub name: Option<String>,
    /// The tool call, for an assistant message that asks for one.
    pub function_call: Option<FunctionCallText>,
}

impl Message {
    /// A message of `role` holding `content`, with no tool attached.
    pub fn plain(role: Role, content: String) -> (r: Message)
        ensures
            r.role == role,
            r.content == content,
            r.name is None,
            r.function_call is None,
    {
        Message { role, content, name: None, function_call: None }
    }
}

/// The question a user submits.
#[derive(Debug, Clone)]
pub struct Query {
    pub query: String,
}

impl Query {
    /// The text of the question.
    pub fn to_string(&self) -> (r: String)
        ensures
            r@ == self.query@,
    {
        self.query.clone()
    }
}

/// A piece of an indexed file found relevant to a query.
#[derive(Debug, Clone)]
pub struct RelevantChunk {
    pub path: String,
    pub content: String,
}

/// The text under which a chunk is shown to the completion engine.
pub open spec fn chunk_text(path: Seq<char>, content: Seq<char>) -> Seq<char> {
    "##Relevant file chunk##\nPath argument:"@ + path + "\nRelevant content: "@ + trimmed(content)
}

impl RelevantChunk {
    /// The chunk as shown to the completion engine: its path, then its
    /// content without surrounding white space.
    pub fn to_string(&self) -> (r: String)
        ensures
            r@ == chunk_text(self.path@, self.content@),
    {
        let mut r = owned("##Relevant file chunk##\nPath argument:");
        r.append(self.path.as_str());
        r.append("\nRelevant content: ");
        r.append(trim(self.content.as_str()));
        r
    }
}

/// The arguments of a tool call that the tools read. A key that is missing,
/// or that holds no string, reads as empty.
#[derive(Debug, Clone)]
pub struct FunctionArgs {
    pub query: String,
    pub path: String,
    /// The arguments as sent, as JSON text.
    pub text: String,
}

/// A tool call whose name is known and whose arguments are valid JSON.
#[derive(Debug, Clone)]
pub struct ParsedFunctionCall {
    pub name: Function,
    pub args: FunctionArgs,
}

/// The value read under a key: the string, or empty when there is none.
pub open spec fn arg_value(field: Option<Option<Seq<char>>>) -> Seq<char> {
    match field {
        Some(Some(s)) => s,
        _ => Seq::empty(),
    }
}

/// The name a tool call stands for: `done` when it gives none.
pub open spec fn call_name(call: FunctionCallText) -> Seq<char> {
    match call.name {
        Some(n) => n@,
        None => "done"@,
    }
}

/// The arguments of a tool call: an empty object when it gives none.
pub open spec fn call_arguments(call: FunctionCallText) -> Seq<char> {
    match call.arguments {
        Some(a) => a@,
        None => "{}"@,
    }
}

/// Whether a tool call can be read: a known name and arguments that are JSON.
pub open spec fn call_is_readable(call: FunctionCallText) -> bool {
    &&& function_named(call_name(call)) is Some
    &&& json_string_field(call_arguments(call), "query"@) is Some
    &&& json_string_field(call_arguments(call), "path"@) is Some
}

/// Reads one string argument; a missing one reads as empty.
fn read_arg(text: &str, key: &str) -> (r: Result<String, ConversationError>)
    ensures
        match r {
            Ok(v) => json_string_field(text@, key@) is Some && v@ == arg_value(json_string_field(text@, key@)),
            Err(e) => json_string_field(text@, key@) is None && e == ConversationError::ToolDispatchFailed,
        },
{
    match string_field(text, key) {
        Ok(Some(v)) => Ok(v),
        Ok(None) => Ok(String::new()),
        Err(_) => Err(ConversationError::ToolDispatchFailed),
    }
}

impl ParsedFunctionCall {
    /// Reads a tool call: the name must be one of the tools (`done` when
    /// missing) and the arguments valid JSON (`{}` when missing).
    pub fn parse(call: &FunctionCallText) -> (r: Result<ParsedFunctionCall, ConversationError>)
        ensures
            r is Ok <==> call_is_readable(*call),
            match r {
                Ok(p) => {
                    &&& Some(p.name) == function_named(call_name(*call))
                    &&& p.args.text@ == call_arguments(*call)
                    &&& p.args.query@ == arg_value(json_string_field(call_arguments(*call), "query"@))
                    &&& p.args.path@ == arg_value(json_string_field(call_arguments(*call), "path"@))
                },
                Err(e) => e == ConversationError::ToolDispatchFailed,
            },
    {
        let name = match &call.name {
            Some(n) => n.clone(),
            None => owned("done"),
        };
        let text = match &call.arguments {
            Some(a) => a.clone(),
            None => owned("{}"),
        };
        let function = match Function::from_name(name.as_str()) {
            Some(f) => f,
            None => return Err(ConversationError::ToolDispatchFailed),
        };
        let query = match read_arg(text.as_str(), "query") {
            Ok(v) => v,
            Err(e) => return Err(e),
        };
        let path = match read_arg(text.as_str(), "path") {
            Ok(v) => v,
            Err(e) => return Err(e),
        };
        Ok(ParsedFunctionCall { name: function, args: FunctionArgs { query, path, text } })
    }
}

} // verus!
