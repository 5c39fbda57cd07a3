//! Retrieval-augmented conversation engine: the decisions of a tool-calling
//! conversation with a completion service, the retrieval helpers it relies on
//! (chunking, ranking, fuzzy path matching) and the progress events it emits.

pub mod constants;
pub mod functions;
pub mod text;
pub mod json;
pub mod data;
pub mod prompts;
pub mod events;
pub mod conversation;
pub mod ranking;
pub mod chunking;
pub mod fuzzy;
pub mod hash;
