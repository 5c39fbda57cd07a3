use ircc_ai::data::{ConversationError, FunctionArgs, FunctionCallText, ParsedFunctionCall, Query, RelevantChunk};
use ircc_ai::functions::Function;
use ircc_ai::prompts::{
    answer_generation_prompt, functions, generate_completion_request, sanitize_query_prompt, str_to_function_call_type,
    system_message, tool_choice_for, ToolChoice,
};

fn parse(name: Option<&str>, arguments: Option<&str>) -> Result<ParsedFunctionCall, ConversationError> {
    ParsedFunctionCall::parse(&FunctionCallText { name: name.map(String::from), arguments: arguments.map(String::from) })
}

#[test]
fn function_names_round_trip() {
    for f in [Function::SearchDocuments, Function::SearchFile, Function::SearchPath, Function::Done] {
        assert_eq!(Function::from_name(f.name()), Some(f));
    }
    assert_eq!(Function::SearchDocuments.name(), "search_documents");
    assert_eq!(Function::from_name("Search_Path"), None);
    assert_eq!(Function::from_name(""), None);
}

#[test]
fn parse_reads_arguments() {
    let p = parse(Some("search_file"), Some("{\"path\":\"en/a.md\",\"query\":\"fees\",\"extra\":1}")).unwrap();
    assert_eq!(p.name, Function::SearchFile);
    let FunctionArgs { query, path, text } = p.args;
    assert_eq!(query, "fees");
    assert_eq!(path, "en/a.md");
    assert_eq!(text, "{\"path\":\"en/a.md\",\"query\":\"fees\",\"extra\":1}");
}

#[test]
fn parse_defaults_missing_parts() {
    let p = parse(None, None).unwrap();
    assert_eq!(p.name, Function::Done);
    assert_eq!(p.args.query, "");
    assert_eq!(p.args.path, "");
    assert_eq!(p.args.text, "{}");
    let p = parse(Some("search_documents"), Some("{\"query\":5}")).unwrap();
    assert_eq!(p.args.query, "");
    let p = parse(Some("search_documents"), Some("[1, 2]")).unwrap();
    assert_eq!(p.args.query, "");
}

#[test]
fn parse_rejects_bad_calls() {
    assert_eq!(parse(Some("delete_everything"), Some("{}")).err(), Some(ConversationError::ToolDispatchFailed));
    assert_eq!(parse(Some("search_path"), Some("{\"path\":")).err(), Some(ConversationError::ToolDispatchFailed));
}

#[test]
fn sanitize_prompt_removes_backticks() {
    let p = sanitize_query_prompt("what `is` a visa?``");
    assert!(p.starts_with("Given below within back-ticks is the query sent by a user."));
    assert!(p.ends_with("\n`what is a visa?`"));
    assert_eq!(p.matches('`').count(), 2);
}

#[test]
fn prompts_are_fixed_texts() {
    assert!(system_message().starts_with("Your job is to choose a function"));
    assert!(system_message().ends_with("Do NOT answer the question directly"));
    assert!(answer_generation_prompt().starts_with("Your job is to answer a user query"));
}

#[test]
fn relevant_chunk_text() {
    let c = RelevantChunk { path: "en/a.md".to_string(), content: "\n  body text \n".to_string() };
    assert_eq!(c.to_string(), "##Relevant file chunk##\nPath argument:en/a.md\nRelevant content: body text");
    let q = Query { query: "hello".to_string() };
    assert_eq!(q.to_string(), "hello");
}

#[test]
fn tool_choice_from_words() {
    assert!(matches!(str_to_function_call_type("auto"), ToolChoice::Auto));
    assert!(matches!(str_to_function_call_type("AUTO"), ToolChoice::Auto));
    assert!(matches!(str_to_function_call_type("None"), ToolChoice::Off));
    match str_to_function_call_type("Search_Path") {
        ToolChoice::Named(n) => assert_eq!(n, "Search_Path"),
        _ => panic!("expected a named tool"),
    }
    assert!(matches!(tool_choice_for("none", "NONE"), ToolChoice::Off));
}

#[test]
fn tool_schemas() {
    let fs = functions();
    let names: Vec<&str> = fs.iter().map(|f| f.name.as_str()).collect();
    assert_eq!(names, vec!["done", "search_documents", "search_path", "search_file"]);
    assert!(fs[0].parameters.is_empty());
    assert_eq!(fs[3].required, vec!["query".to_string(), "path".to_string()]);
    assert_eq!(fs[2].parameters[0].name, "path");
    let r = generate_completion_request(Vec::new(), "none");
    assert!(matches!(r.function_call, ToolChoice::Off));
    assert_eq!(r.functions.len(), 4);
}

#[test]
fn error_descriptions() {
    assert_eq!(ConversationError::NotIndexed.description(), "repository is not indexed");
    assert_eq!(ConversationError::LoopExceeded.description(), "too many completion requests");
}
