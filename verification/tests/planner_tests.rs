use dir_player::{generate_chunks, MovieChunk};

fn md_get(chunk: &MovieChunk, key: &str) -> Option<String> {
    for (k, v) in &chunk.metadata {
        if k == key {
            return Some(v.clone());
        }
    }
    None
}

#[test]
fn linear_plan_has_three_chunks_with_remainder() {
    let chunks = generate_chunks("vid1", "linear", 12_000, 5_000);
    assert_eq!(chunks.len(), 3);
    assert_eq!(chunks[0].start_time, 0);
    assert_eq!(chunks[0].duration, 5_000);
    assert_eq!(chunks[1].start_time, 5_000);
    assert_eq!(chunks[1].duration, 5_000);
    assert_eq!(chunks[2].start_time, 10_000);
    assert_eq!(chunks[2].duration, 2_000);
    assert_eq!(chunks[0].url, "/videos/vid1/chunks/000.mp4");
    assert_eq!(chunks[1].url, "/videos/vid1/chunks/001.mp4");
    assert_eq!(chunks[2].url, "/videos/vid1/chunks/002.mp4");
}

#[test]
fn chunk_ids_are_zero_padded() {
    let chunks = generate_chunks("vid1", "linear", 12_000, 5_000);
    assert_eq!(chunks[0].id, "vid1_chunk_000");
    assert_eq!(chunks[1].id, "vid1_chunk_001");
    assert_eq!(chunks[2].id, "vid1_chunk_002");
}

#[test]
fn wide_indexes_keep_their_full_rendering() {
    let chunks = generate_chunks("vid", "linear", 1_200_000, 1_000);
    assert_eq!(chunks.len(), 1_200);
    assert_eq!(chunks[5].id, "vid_chunk_005");
    assert_eq!(chunks[57].id, "vid_chunk_057");
    assert_eq!(chunks[234].id, "vid_chunk_234");
    assert_eq!(chunks[1_199].id, "vid_chunk_1199");
    assert_eq!(chunks[1_199].url, "/videos/vid/chunks/1199.mp4");
}

#[test]
fn emotion_driven_hints_cycle() {
    let chunks = generate_chunks("vid2", "emotion_driven", 20_000, 5_000);
    assert_eq!(chunks.len(), 4);
    assert_eq!(md_get(&chunks[0], "emotion_hint").unwrap(), "calm");
    assert_eq!(md_get(&chunks[1], "emotion_hint").unwrap(), "curious");
    assert_eq!(md_get(&chunks[2], "emotion_hint").unwrap(), "excited");
    assert_eq!(md_get(&chunks[3], "emotion_hint").unwrap(), "happy");
    assert_eq!(chunks[0].url, "/videos/vid2/emotion/chunk_000_emo.mp4");
    let longer = generate_chunks("vid2", "emotion_driven", 25_000, 5_000);
    assert_eq!(md_get(&longer[4], "emotion_hint").unwrap(), "calm");
}

#[test]
fn adaptive_quality_levels_cycle() {
    let chunks = generate_chunks("vid3", "adaptive", 20_000, 5_000);
    assert_eq!(chunks.len(), 4);
    assert_eq!(md_get(&chunks[0], "quality_level").unwrap(), "720p");
    assert_eq!(md_get(&chunks[1], "quality_level").unwrap(), "1080p");
    assert_eq!(md_get(&chunks[2], "quality_level").unwrap(), "4k");
    assert_eq!(md_get(&chunks[3], "quality_level").unwrap(), "720p");
    assert_eq!(chunks[1].url, "/videos/vid3/adaptive/chunk_001_auto.mp4");
}

#[test]
fn every_chunk_carries_policy_index_and_count() {
    let chunks = generate_chunks("vid4", "linear", 11_000, 4_000);
    assert_eq!(chunks.len(), 3);
    for (i, chunk) in chunks.iter().enumerate() {
        assert_eq!(md_get(chunk, "policy").unwrap(), "linear");
        assert_eq!(md_get(chunk, "index").unwrap(), format!("{}", i));
        assert_eq!(md_get(chunk, "total_chunks").unwrap(), "3");
    }
}

#[test]
fn unrecognized_policy_uses_default_template_and_no_extra_metadata() {
    let chunks = generate_chunks("vid5", "mystery", 10_000, 5_000);
    assert_eq!(chunks.len(), 2);
    assert_eq!(chunks[0].url, "/videos/vid5/default/chunk_000.mp4");
    assert_eq!(md_get(&chunks[0], "policy").unwrap(), "mystery");
    assert!(md_get(&chunks[0], "emotion_hint").is_none());
    assert!(md_get(&chunks[0], "quality_level").is_none());
}

#[test]
fn counts_starts_and_durations_are_contiguous() {
    let chunks = generate_chunks("vid6", "linear", 13_000, 4_000);
    assert_eq!(chunks.len(), 4);
    let mut elapsed: u64 = 0;
    for chunk in &chunks {
        assert_eq!(chunk.start_time, elapsed);
        assert!(chunk.duration > 0);
        elapsed += chunk.duration;
    }
    assert_eq!(elapsed, 13_000);
}

#[test]
fn exact_multiple_keeps_nominal_last_chunk() {
    let chunks = generate_chunks("vid7", "linear", 15_000, 5_000);
    assert_eq!(chunks.len(), 3);
    assert_eq!(chunks[2].start_time, 10_000);
    assert_eq!(chunks[2].duration, 5_000);
}

#[test]
fn planning_twice_is_identical_in_content() {
    let first = generate_chunks("vid8", "emotion_driven", 23_000, 4_000);
    let second = generate_chunks("vid8", "emotion_driven", 23_000, 4_000);
    assert_eq!(first, second);
}

#[test]
fn single_chunk_when_size_exceeds_total() {
    let chunks = generate_chunks("vid9", "linear", 3_000, 5_000);
    assert_eq!(chunks.len(), 1);
    assert_eq!(chunks[0].start_time, 0);
    assert_eq!(chunks[0].duration, 3_000);
    assert_eq!(md_get(&chunks[0], "total_chunks").unwrap(), "1");
}
