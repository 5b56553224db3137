//! The chunk planner: a pure function from (video id, policy, total
//! duration, chunk size) to an ordered, contiguous, gapless sequence of
//! chunks with policy-derived metadata.
//!
//! `chunk_count = ceil(total_duration / chunk_size)`; chunk `i` starts at
//! `i * chunk_size` and lasts `chunk_size`, except the last chunk, which
//! lasts whatever remains of the timeline.

use vstd::prelude::*;

use crate::chunk::{ChunkModel, MovieChunk};
use crate::text::{spec_dec_str, spec_pad3, str_eq, u64_to_padded3_string, u64_to_string};

verus! {

/// How many chunks a timeline of `total` split at `size` yields:
/// the ceiling of `total / size`.
pub open spec fn spec_chunk_count(total: int, size: int) -> int
    recommends
        total > 0,
        size > 0,
{
    if total % size == 0 {
        total / size
    } else {
        total / size + 1
    }
}

/// The deterministic chunk id: the video id, then `_chunk_`, then the
/// zero-padded index.
pub open spec fn spec_chunk_id(video_id: Seq<char>, i: int) -> Seq<char> {
    video_id + "_chunk_"@ + spec_pad3(i)
}

/// The retrieval URL for chunk `i`, one fixed path template per policy
/// (with a default fallback for unrecognized policies).
pub open spec fn spec_chunk_url(video_id: Seq<char>, i: int, policy: Seq<char>) -> Seq<char> {
    if policy == "linear"@ {
        "/videos/"@ + video_id + "/chunks/"@ + spec_pad3(i) + ".mp4"@
    } else if policy == "adaptive"@ {
        "/videos/"@ + video_id + "/adaptive/chunk_"@ + spec_pad3(i) + "_auto.mp4"@
    } else if policy == "emotion_driven"@ {
        "/videos/"@ + video_id + "/emotion/chunk_"@ + spec_pad3(i) + "_emo.mp4"@
    } else {
        "/videos/"@ + video_id + "/default/chunk_"@ + spec_pad3(i) + ".mp4"@
    }
}

/// The emotion hint attached under the `emotion_driven` policy: a fixed
/// four-value cycle keyed by `i mod 4`.
pub open spec fn spec_emotion_hint(i: int) -> Seq<char> {
    if i % 4 == 0 {
        "calm"@
    } else if i % 4 == 1 {
        "curious"@
    } else if i % 4 == 2 {
        "excited"@
    } else {
        "happy"@
    }
}

/// The quality level attached under the `adaptive` policy: a fixed
/// three-value cycle keyed by `i mod 3`.
pub open spec fn spec_adaptive_quality(i: int) -> Seq<char> {
    if i % 3 == 0 {
        "720p"@
    } else if i % 3 == 1 {
        "1080p"@
    } else {
        "4k"@
    }
}

/// The metadata of chunk `i` out of `count`: always the policy name, the
/// index and the total count (as strings), plus the policy-specific
/// addition for `emotion_driven` and `adaptive`.
pub open spec fn spec_chunk_metadata(policy: Seq<char>, i: int, count: int) -> Seq<
    (Seq<char>, Seq<char>),
> {
    let base = seq![
        ("policy"@, policy),
        ("index"@, spec_dec_str(i)),
        ("total_chunks"@, spec_dec_str(count)),
    ];
    if policy == "emotion_driven"@ {
        base + seq![("emotion_hint"@, spec_emotion_hint(i))]
    } else if policy == "adaptive"@ {
        base + seq![("quality_level"@, spec_adaptive_quality(i))]
    } else {
        base
    }
}

/// The model of chunk `i` of a plan: start at `i * size`, nominal
/// duration except on the last index, where the remainder of the
/// timeline is taken.
pub open spec fn spec_chunk(
    video_id: Seq<char>,
    policy: Seq<char>,
    total: int,
    size: int,
    i: int,
) -> ChunkModel {
    let count = spec_chunk_count(total, size);
    ChunkModel {
        id: spec_chunk_id(video_id, i),
        start_time: i * size,
        duration: if i == count - 1 {
            total - i * size
        } else {
            size
        },
        url: spec_chunk_url(video_id, i, policy),
        metadata: spec_chunk_metadata(policy, i, count),
    }
}

/// The whole plan: `spec_chunk_count` chunks, ascending by index.
pub open spec fn spec_plan(video_id: Seq<char>, policy: Seq<char>, total: int, size: int) -> Seq<
    ChunkModel,
> {
    Seq::new(spec_chunk_count(total, size) as nat, |i: int| spec_chunk(video_id, policy, total, size, i))
}

/// The total duration covered by a sequence of chunks.
pub open spec fn spec_durations_total(chunks: Seq<ChunkModel>) -> int
    decreases chunks.len(),
{
    if chunks.len() == 0 {
        0
    } else {
        spec_durations_total(chunks.drop_last()) + chunks.last().duration
    }
}

/// The first `i` chunks of a plan cover `i * size` milliseconds, and the
/// whole plan covers the total exactly.
proof fn lemma_plan_prefix_total(
    video_id: Seq<char>,
    policy: Seq<char>,
    total: int,
    size: int,
    i: int,
)
    requires
        total > 0,
        size > 0,
        0 <= i <= spec_chunk_count(total, size),
    ensures
        spec_durations_total(spec_plan(video_id, policy, total, size).take(i)) == if i
            == spec_chunk_count(total, size) {
            total
        } else {
            i * size
        },
    decreases i,
{
    let p = spec_plan(video_id, policy, total, size);
    let count = spec_chunk_count(total, size);
    lemma_chunk_count_bounds(total, size);
    if i == 0 {
        assert(p.take(0) =~= Seq::<ChunkModel>::empty());
    } else {
        lemma_plan_prefix_total(video_id, policy, total, size, i - 1);
        assert(p.take(i).drop_last() =~= p.take(i - 1));
        assert(p.take(i).last() == p[i - 1]);
        if i == count {
            assert(p[i - 1].duration == total - (i - 1) * size);
        } else {
            assert(i - 1 != count - 1);
            assert(p[i - 1].duration == size);
            assert((i - 1) * size + size == i * size) by (nonlinear_arith);
        }
    }
}

/// For every positive total duration and chunk size: the plan holds
/// `ceil(total / size)` chunks (the count brackets the total), the
/// durations sum exactly to the total with no drift, and each chunk
/// starts where the chunks before it end.
pub proof fn lemma_plan_is_contiguous(video_id: Seq<char>, policy: Seq<char>, total: int, size: int)
    requires
        total > 0,
        size > 0,
    ensures
        spec_plan(video_id, policy, total, size).len() == spec_chunk_count(total, size),
        spec_chunk_count(total, size) >= 1,
        (spec_chunk_count(total, size) - 1) * size < total <= spec_chunk_count(total, size) * size,
        spec_durations_total(spec_plan(video_id, policy, total, size)) == total,
        forall|i: int|
            0 <= i < spec_chunk_count(total, size) ==> spec_plan(
                video_id,
                policy,
                total,
                size,
            )[i].start_time == spec_durations_total(
                spec_plan(video_id, policy, total, size).take(i),
            ),
{
    let p = spec_plan(video_id, policy, total, size);
    let count = spec_chunk_count(total, size);
    lemma_chunk_count_bounds(total, size);
    lemma_plan_prefix_total(video_id, policy, total, size, count);
    assert(p.take(count) =~= p);
    assert forall|i: int| 0 <= i < count implies p[i].start_time == spec_durations_total(
        p.take(i),
    ) by {
        lemma_plan_prefix_total(video_id, policy, total, size, i);
    }
}

/// Planning is deterministic: two chunk lists planned from identical
/// inputs are identical in content — ids, times, URLs and metadata.
pub proof fn lemma_plan_deterministic(
    first: Seq<ChunkModel>,
    second: Seq<ChunkModel>,
    video_id: Seq<char>,
    policy: Seq<char>,
    total: int,
    size: int,
)
    requires
        first == spec_plan(video_id, policy, total, size),
        second == spec_plan(video_id, policy, total, size),
    ensures
        first == second,
{
}

/// The chunk count is at least one and brackets the total duration:
/// `(count - 1) * size < total <= count * size`.
pub proof fn lemma_chunk_count_bounds(total: int, size: int)
    requires
        total > 0,
        size > 0,
    ensures
        spec_chunk_count(total, size) >= 1,
        (spec_chunk_count(total, size) - 1) * size < total,
        total <= spec_chunk_count(total, size) * size,
{
    let q = total / size;
    let r = total % size;
    vstd::arithmetic::div_mod::lemma_fundamental_div_mod(total, size);
    vstd::arithmetic::div_mod::lemma_mod_bound(total, size);
    vstd::arithmetic::div_mod::lemma_div_pos_is_pos(total, size);
    if r == 0 {
        assert((q - 1) * size == q * size - size) by (nonlinear_arith);
        assert(q >= 1) by (nonlinear_arith)
            requires
                size * q == total,
                total > 0,
                size > 0,
        ;
    } else {
        assert((q + 1) * size == q * size + size) by (nonlinear_arith);
    }
}

/// Computes `ceil(total / size)` without overflow.
fn compute_chunk_count(total: u64, size: u64) -> (c: u64)
    requires
        total > 0,
        size > 0,
    ensures
        c as int == spec_chunk_count(total as int, size as int),
        c >= 1,
{
    let q = total / size;
    if total % size == 0 {
        proof {
            lemma_chunk_count_bounds(total as int, size as int);
        }
        q
    } else {
        proof {
            lemma_chunk_count_bounds(total as int, size as int);
            vstd::arithmetic::div_mod::lemma_fundamental_div_mod(total as int, size as int);
            assert(q * (size as int) >= q) by (nonlinear_arith)
                requires
                    size as int >= 1,
                    q >= 0,
            ;
        }
        q + 1
    }
}

/// Builds the retrieval URL for one chunk, matching `spec_chunk_url`.
pub fn generate_chunk_url(video_id: &str, chunk_index: u64, policy: &str) -> (url: String)
    ensures
        url@ == spec_chunk_url(video_id@, chunk_index as int, policy@),
{
    let padded = u64_to_padded3_string(chunk_index);
    if str_eq(policy, "linear") {
        let mut url = String::from_str("/videos/");
        url.append(video_id);
        url.append("/chunks/");
        url.append(padded.as_str());
        url.append(".mp4");
        url
    } else if str_eq(policy, "adaptive") {
        let mut url = String::from_str("/videos/");
        url.append(video_id);
        url.append("/adaptive/chunk_");
        url.append(padded.as_str());
        url.append("_auto.mp4");
        url
    } else if str_eq(policy, "emotion_driven") {
        let mut url = String::from_str("/videos/");
        url.append(video_id);
        url.append("/emotion/chunk_");
        url.append(padded.as_str());
        url.append("_emo.mp4");
        url
    } else {
        let mut url = String::from_str("/videos/");
        url.append(video_id);
        url.append("/default/chunk_");
        url.append(padded.as_str());
        url.append(".mp4");
        url
    }
}

/// The emotion hint for chunk `chunk_index`, matching `spec_emotion_hint`.
pub fn get_emotion_hint_for_chunk(chunk_index: u64) -> (hint: String)
    ensures
        hint@ == spec_emotion_hint(chunk_index as int),
{
    let r = chunk_index % 4;
    if r == 0 {
        String::from_str("calm")
    } else if r == 1 {
        String::from_str("curious")
    } else if r == 2 {
        String::from_str("excited")
    } else {
        String::from_str("happy")
    }
}

/// The adaptive quality level for chunk `chunk_index`, matching
/// `spec_adaptive_quality`.
pub fn get_adaptive_quality(chunk_index: u64) -> (quality: String)
    ensures
        quality@ == spec_adaptive_quality(chunk_index as int),
{
    let r = chunk_index % 3;
    if r == 0 {
        String::from_str("720p")
    } else if r == 1 {
        String::from_str("1080p")
    } else {
        String::from_str("4k")
    }
}

/// Builds the chunk id for one chunk, matching `spec_chunk_id`.
fn generate_chunk_id(video_id: &str, chunk_index: u64) -> (id: String)
    ensures
        id@ == spec_chunk_id(video_id@, chunk_index as int),
{
    let mut id = String::from_str(video_id);
    id.append("_chunk_");
    let padded = u64_to_padded3_string(chunk_index);
    id.append(padded.as_str());
    id
}

/// Builds the metadata pairs for one chunk, matching `spec_chunk_metadata`.
fn generate_chunk_metadata(chunk_policy: &str, chunk_index: u64, chunk_count: u64) -> (md: Vec<
    (String, String),
>)
    ensures
        md.deep_view() == spec_chunk_metadata(chunk_policy@, chunk_index as int, chunk_count as int),
{
    let mut md: Vec<(String, String)> = Vec::new();
    md.push((String::from_str("policy"), String::from_str(chunk_policy)));
    md.push((String::from_str("index"), u64_to_string(chunk_index)));
    md.push((String::from_str("total_chunks"), u64_to_string(chunk_count)));
    if str_eq(chunk_policy, "emotion_driven") {
        md.push((String::from_str("emotion_hint"), get_emotion_hint_for_chunk(chunk_index)));
    } else if str_eq(chunk_policy, "adaptive") {
        md.push((String::from_str("quality_level"), get_adaptive_quality(chunk_index)));
    }
    proof {
        assert(md.deep_view() =~= spec_chunk_metadata(
            chunk_policy@,
            chunk_index as int,
            chunk_count as int,
        ));
    }
    md
}

/// Plans the timeline of `video_id`: `ceil(total_duration / chunk_size)`
/// contiguous chunks, ascending by start time, each with its policy-derived
/// id, URL and metadata. The caller guards against zero inputs.
pub fn generate_chunks(
    video_id: &str,
    chunk_policy: &str,
    total_duration: u64,
    chunk_size: u64,
) -> (chunks: Vec<MovieChunk>)
    requires
        total_duration > 0,
        chunk_size > 0,
    ensures
        chunks.deep_view() == spec_plan(
            video_id@,
            chunk_policy@,
            total_duration as int,
            chunk_size as int,
        ),
{
    let ghost total = total_duration as int;
    let ghost size = chunk_size as int;
    let chunk_count = compute_chunk_count(total_duration, chunk_size);
    proof {
        lemma_chunk_count_bounds(total, size);
    }
    let mut chunks: Vec<MovieChunk> = Vec::new();
    let mut i: u64 = 0;
    while i < chunk_count
        invariant
            i <= chunk_count,
            total_duration > 0,
            chunk_size > 0,
            total == total_duration as int,
            size == chunk_size as int,
            chunk_count as int == spec_chunk_count(total, size),
            (chunk_count - 1) * size < total <= chunk_count as int * size,
            chunks@.len() == i as nat,
            chunks.deep_view() =~= spec_plan(video_id@, chunk_policy@, total, size).take(i as int),
        decreases chunk_count - i,
    {
        proof {
            assert(i as int * size <= (chunk_count - 1) * size) by (nonlinear_arith)
                requires
                    i as int <= chunk_count as int - 1,
                    size >= 0,
            ;
        }
        let start_time = i * chunk_size;
        let duration = if i == chunk_count - 1 {
            total_duration - start_time
        } else {
            chunk_size
        };
        let chunk = MovieChunk {
            id: generate_chunk_id(video_id, i),
            start_time,
            duration,
            url: generate_chunk_url(video_id, i, chunk_policy),
            metadata: generate_chunk_metadata(chunk_policy, i, chunk_count),
        };
        proof {
            assert(chunk.deep_view() =~= spec_chunk(video_id@, chunk_policy@, total, size, i as int));
        }
        let ghost prev = chunks.deep_view();
        let ghost prev_vec = chunks@;
        chunks.push(chunk);
        i = i + 1;
        proof {
            let p = spec_plan(video_id@, chunk_policy@, total, size);
            let k = prev_vec.len() as int;
            assert(chunks.deep_view().len() == k + 1);
            assert(p.take(i as int).len() == i as int);
            assert forall|j: int| 0 <= j < k implies #[trigger] chunks.deep_view()[j] == p[j] by {
                assert(chunks@[j] == prev_vec[j]);
                assert(prev[j] == p.take(k)[j]);
                assert(p.take(k)[j] == p[j]);
            }
            assert(chunks.deep_view()[k] == chunk.deep_view());
            assert(p[k] == spec_chunk(video_id@, chunk_policy@, total, size, k));
            assert forall|j: int| 0 <= j < i as int implies #[trigger] chunks.deep_view()[j]
                == p.take(i as int)[j] by {
                assert(p.take(i as int)[j] == p[j]);
            }
            assert(chunks.deep_view() =~= p.take(i as int));
        }
    }
    proof {
        assert(chunks.deep_view() =~= spec_plan(video_id@, chunk_policy@, total, size));
    }
    chunks
}

} // verus!
