//! The tools that the completion engine may ask for, and their wire names.
use vstd::prelude::*;
use crate::text::same_text;

verus! {

/// The tools that the completion engine may ask the conversation to call.
#[derive(Debug, Clone, Copy, PartialEq, Eq, Structural)]
pub enum Function {
    SearchDocuments,
    SearchFile,
    SearchPath,
    Done,
}

/// The wire name of a tool.
pub open spec fn function_name(f: Function) -> Seq<char> {
    match f {
        Function::SearchDocuments => "search_documents"@,
        Function::SearchFile => "search_file"@,
        Function::SearchPath => "search_path"@,
        Function::Done => "done"@,
    }
}

/// The tool whose wire name is `s`, if any.
pub open spec fn function_named(s: Seq<char>) -> Option<Function> {
    if s == function_name(Function::SearchDocuments) {
        Some(Function::SearchDocuments)
    } else if s == function_name(Function::SearchFile) {
        Some(Function::SearchFile)
    } else if s == function_name(Function::SearchPath) {
        Some(Function::SearchPath)
    } else if s == function_name(Function::Done) {
        Some(Function::Done)
    } else {
        None
    }
}

/// Distinct tools have distinct wire names, so a name read back gives the
/// tool it was written from.
pub proof fn lemma_name_round_trip(f: Function)
    ensures
        function_named(function_name(f)) == Some(f),
{
    reveal_strlit("search_documents");
    reveal_strlit("search_file");
    reveal_strlit("search_path");
    reveal_strlit("done");
    let d = function_name(Function::SearchDocuments);
    let fi = function_name(Function::SearchFile);
    let p = function_name(Function::SearchPath);
    let n = function_name(Function::Done);
    assert(d.len() == 16 && fi.len() == 11 && p.len() == 11 && n.len() == 4);
    assert(fi[7] != p[7]);
    assert(d != fi && d != p && d != n && fi != p && fi != n && p != n);
}

impl Function {
    /// The wire name of this tool.
    pub fn name(&self) -> (r: &'static str)
        ensures
            r@ == function_name(*self),
    {
        match self {
            Function::SearchDocuments => "search_documents",
            Function::SearchFile => "search_file",
            Function::SearchPath => "search_path",
            Function::Done => "done",
        }
    }

    /// The tool whose wire name is `s`; `None` for any other text.
    pub fn from_name(s: &str) -> (r: Option<Function>)
        ensures
            r == function_named(s@),
    {
        if same_text(s, "search_documents") {
            Some(Function::SearchDocuments)
        } else if same_text(s, "search_file") {
            Some(Function::SearchFile)
        } else if same_text(s, "search_path") {
            Some(Function::SearchPath)
        } else if same_text(s, "done") {
            Some(Function::Done)
        } else {
            None
        }
    }
}

} // verus!
