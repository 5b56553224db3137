//! The chunk data model: a contiguous time-bounded segment of a video's
//! timeline with a retrieval URL and descriptive metadata.

use vstd::prelude::*;

verus! {

/// Total duration assumed when a planning request leaves it unset
/// (milliseconds).
pub const DEFAULT_TOTAL_DURATION: u64 = 60000;

/// Chunk size assumed when a planning request leaves it unset
/// (milliseconds).
pub const DEFAULT_CHUNK_SIZE: u64 = 5000;

/// One planned segment of a video's timeline. Times are in
/// milliseconds; metadata is an ordered list of key/value pairs.
#[derive(Debug, Clone, PartialEq)]
pub struct MovieChunk {
    pub id: String,
    pub start_time: u64,
    pub duration: u64,
    pub url: String,
    pub metadata: Vec<(String, String)>,
}

/// The mathematical value of a `MovieChunk`: every field as a plain
/// sequence or integer.
#[verifier::ext_equal]
pub struct ChunkModel {
    pub id: Seq<char>,
    pub start_time: int,
    pub duration: int,
    pub url: Seq<char>,
    pub metadata: Seq<(Seq<char>, Seq<char>)>,
}

impl DeepView for MovieChunk {
    type V = ChunkModel;

    open spec fn deep_view(&self) -> ChunkModel {
        ChunkModel {
            id: self.id@,
            start_time: self.start_time as int,
            duration: self.duration as int,
            url: self.url@,
            metadata: self.metadata.deep_view(),
        }
    }
}

/// A planning request: which video to segment, under which policy, and
/// with which (optional) duration and chunk size in milliseconds.
/// `quality` is accepted but unused by the core (reserved).
#[derive(Debug, Clone)]
pub struct MovieChunkConfig {
    pub video_id: String,
    pub chunk_policy: String,
    pub total_duration: Option<u64>,
    pub chunk_size: Option<u64>,
    pub quality: Option<String>,
}

/// The planner's error taxonomy: a non-positive duration or chunk size
/// is rejected rather than producing empty or degenerate chunks.
#[derive(Debug, PartialEq, Eq, Structural, Clone, Copy)]
pub enum PlanError {
    InvalidParameter,
}

/// Copies a metadata list, key and value alike.
fn clone_metadata(metadata: &Vec<(String, String)>) -> (r: Vec<(String, String)>)
    ensures
        r@ == metadata@,
{
    let mut r: Vec<(String, String)> = Vec::new();
    let n = metadata.len();
    let mut i: usize = 0;
    while i < n
        invariant
            i <= n,
            n == metadata@.len(),
            r@ =~= metadata@.take(i as int),
        decreases n - i,
    {
        r.push((metadata[i].0.clone(), metadata[i].1.clone()));
        proof {
            assert(r@ =~= metadata@.take(i + 1));
        }
        i = i + 1;
    }
    proof {
        assert(r@ =~= metadata@);
    }
    r
}

/// Copies one chunk; the copy has the same mathematical value.
pub fn clone_chunk(chunk: &MovieChunk) -> (r: MovieChunk)
    ensures
        r.deep_view() == chunk.deep_view(),
{
    let r = MovieChunk {
        id: chunk.id.clone(),
        start_time: chunk.start_time,
        duration: chunk.duration,
        url: chunk.url.clone(),
        metadata: clone_metadata(&chunk.metadata),
    };
    proof {
        assert(r.deep_view() =~= chunk.deep_view());
    }
    r
}

/// Copies a chunk list; the copy has the same mathematical value.
pub fn clone_chunk_list(chunks: &Vec<MovieChunk>) -> (r: Vec<MovieChunk>)
    ensures
        r.deep_view() == chunks.deep_view(),
{
    let mut r: Vec<MovieChunk> = Vec::new();
    let n = chunks.len();
    let mut i: usize = 0;
    while i < n
        invariant
            i <= n,
            n == chunks@.len(),
            r@.len() == i as nat,
            r.deep_view() =~= chunks.deep_view().take(i as int),
        decreases n - i,
    {
        let ghost prev = r.deep_view();
        let ghost prev_vec = r@;
        let copy = clone_chunk(&chunks[i]);
        r.push(copy);
        proof {
            assert forall|j: int| 0 <= j < prev_vec.len() implies #[trigger] r.deep_view()[j]
                == prev[j] by {
                assert(r@[j] == prev_vec[j]);
            }
            assert(r.deep_view()[prev_vec.len() as int] == copy.deep_view());
            assert(r.deep_view() =~= chunks.deep_view().take(i + 1));
        }
        i = i + 1;
    }
    proof {
        assert(r.deep_view() =~= chunks.deep_view());
    }
    r
}

} // verus!
