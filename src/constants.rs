//! Settings of retrieval and of the conversation loop.
use vstd::prelude::*;

verus! {

/// How many files a document search reads.
pub const RELEVANT_FILES_LIMIT: usize = 3;

/// How many chunks of each file a search returns.
pub const RELEVANT_CHUNKS_LIMIT: usize = 2;

/// How many paths a path search returns.
pub const PATH_SEARCH_LIMIT: usize = 1;

/// The smallest size, in characters, of a chunk that is not the last of its file.
pub const CHUNK_MIN_CHARS: usize = 300;

/// The largest size, in characters, of a chunk.
pub const CHUNK_MAX_CHARS: usize = 400;

/// How many retrievals (and repeated requests) the retrieval loop may make
/// before it gives up.
pub const MAX_COMPLETION_REQUESTS: usize = 16;

/// How many indexed paths a listing returns at most.
pub const MAX_FILES_COUNT: usize = 1000;

/// The size of the vectors the embedding model produces.
pub const EMBEDDINGS_DIMENSION: usize = 384;

} // verus!
