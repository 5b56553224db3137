//! The playback-state tracker: the single current playback session,
//! driven by discrete events through a fixed transition table, plus the
//! registry of planned chunk lists.
//!
//! Unrecognized event types are a deliberate no-op, not an error, so new
//! event names can appear without breaking older players.

use vstd::prelude::*;

use crate::chunk::{
    clone_chunk_list, ChunkModel, MovieChunk, MovieChunkConfig, PlanError, DEFAULT_CHUNK_SIZE,
    DEFAULT_TOTAL_DURATION,
};
use crate::planner::{generate_chunks, spec_plan};
use crate::registry::ChunkListRegistry;
use crate::text::str_eq;

verus! {

/// The playback session's state: which video and chunk are current,
/// whether playback runs, and the playback speed. The speed is an opaque
/// encoding chosen by the host; it is stored verbatim, never interpreted
/// and never validated.
#[derive(Debug)]
pub struct PlayerState {
    pub current_video_id: Option<String>,
    pub current_chunk_index: usize,
    pub is_playing: bool,
    pub playback_speed: u64,
}

/// The mathematical value of a `PlayerState`.
#[verifier::ext_equal]
pub struct StateModel {
    pub current_video_id: Option<Seq<char>>,
    pub current_chunk_index: nat,
    pub is_playing: bool,
    pub playback_speed: u64,
}

impl View for PlayerState {
    type V = StateModel;

    open spec fn view(&self) -> StateModel {
        StateModel {
            current_video_id: self.current_video_id.deep_view(),
            current_chunk_index: self.current_chunk_index as nat,
            is_playing: self.is_playing,
            playback_speed: self.playback_speed,
        }
    }
}

/// The state a fresh tracker starts in: no current video, index zero,
/// not playing, speed zero.
pub open spec fn spec_initial_state() -> StateModel {
    StateModel {
        current_video_id: None,
        current_chunk_index: 0,
        is_playing: false,
        playback_speed: 0,
    }
}

impl Default for PlayerState {
    fn default() -> (r: PlayerState)
        ensures
            r@ == spec_initial_state(),
    {
        let r = PlayerState {
            current_video_id: None,
            current_chunk_index: 0,
            is_playing: false,
            playback_speed: 0,
        };
        proof {
            assert(r@ =~= spec_initial_state());
        }
        r
    }
}

/// The advisory side-effect hint a transition emits for external
/// collaborators; it never feeds back into the state.
#[derive(Debug, PartialEq, Eq, Structural, Clone, Copy)]
pub enum ChunkEventHint {
    /// Notify the behavior/scheduling layer that a chunk started.
    NotifyChunkStart,
    /// Consider pre-fetching the next chunk.
    PrefetchNextChunk,
    /// Run session cleanup.
    SessionCleanup,
    /// Nothing to do.
    NoHint,
}

/// The chunk index an event carries, defaulting to zero when absent.
pub open spec fn spec_effective_index(chunk_index: Option<usize>) -> nat {
    match chunk_index {
        Some(i) => i as nat,
        None => 0,
    }
}

/// Whether the tracker's transition table has a row for this event type.
pub open spec fn spec_recognized_event(event_type: Seq<char>) -> bool {
    ||| event_type == "chunk_started"@
    ||| event_type == "chunk_ended"@
    ||| event_type == "playback_paused"@
    ||| event_type == "playback_resumed"@
    ||| event_type == "playback_completed"@
}

/// The hint each transition emits.
pub open spec fn spec_event_hint(event_type: Seq<char>) -> ChunkEventHint {
    if event_type == "chunk_started"@ {
        ChunkEventHint::NotifyChunkStart
    } else if event_type == "chunk_ended"@ {
        ChunkEventHint::PrefetchNextChunk
    } else if event_type == "playback_completed"@ {
        ChunkEventHint::SessionCleanup
    } else {
        ChunkEventHint::NoHint
    }
}

/// The transition table. `chunk_started` adopts the event's video and
/// index and starts playing; `chunk_ended` advances the index past the
/// ended chunk; pause and resume toggle `is_playing`; completion resets
/// the index and stops playback but keeps the video id; anything else
/// changes nothing.
pub open spec fn spec_apply_event(
    s: StateModel,
    video_id: Seq<char>,
    event_type: Seq<char>,
    idx: nat,
) -> StateModel {
    if event_type == "chunk_started"@ {
        StateModel {
            current_video_id: Some(video_id),
            current_chunk_index: idx,
            is_playing: true,
            playback_speed: s.playback_speed,
        }
    } else if event_type == "chunk_ended"@ {
        StateModel { current_chunk_index: idx + 1, ..s }
    } else if event_type == "playback_paused"@ {
        StateModel { is_playing: false, ..s }
    } else if event_type == "playback_resumed"@ {
        StateModel { is_playing: true, ..s }
    } else if event_type == "playback_completed"@ {
        StateModel { current_chunk_index: 0, is_playing: false, ..s }
    } else {
        s
    }
}

/// Computes the advisory hint for an event, matching `spec_event_hint`.
/// The video id and index ride along for external collaborators but do
/// not influence the hint.
#[allow(unused_variables)]
pub fn handle_chunk_event(video_id: &str, event_type: &str, chunk_index: usize) -> (h:
    ChunkEventHint)
    ensures
        h == spec_event_hint(event_type@),
{
    if str_eq(event_type, "chunk_started") {
        ChunkEventHint::NotifyChunkStart
    } else if str_eq(event_type, "chunk_ended") {
        ChunkEventHint::PrefetchNextChunk
    } else if str_eq(event_type, "playback_completed") {
        ChunkEventHint::SessionCleanup
    } else {
        ChunkEventHint::NoHint
    }
}

/// The duration a planning request means: the given one, or the default.
pub open spec fn spec_effective_duration(total_duration: Option<u64>) -> u64 {
    match total_duration {
        Some(t) => t,
        None => DEFAULT_TOTAL_DURATION,
    }
}

/// The chunk size a planning request means: the given one, or the default.
pub open spec fn spec_effective_size(chunk_size: Option<u64>) -> u64 {
    match chunk_size {
        Some(c) => c,
        None => DEFAULT_CHUNK_SIZE,
    }
}

/// The whole engine: the chunk-list registry and the single playback
/// session, owned together and handed to every operation.
pub struct DirPlayer {
    chunk_lists: ChunkListRegistry,
    player_state: PlayerState,
}

impl DirPlayer {
    /// The registry's keys stay pairwise distinct.
    pub closed spec fn wf(&self) -> bool {
        self.chunk_lists.wf()
    }

    /// The registry as a mapping from video id to chunk models.
    pub closed spec fn registry(&self) -> Map<Seq<char>, Seq<ChunkModel>> {
        self.chunk_lists@
    }

    /// The playback session's mathematical state.
    pub closed spec fn state_model(&self) -> StateModel {
        self.player_state@
    }

    /// A fresh engine: empty registry, initial session state.
    pub fn new() -> (r: DirPlayer)
        ensures
            r.wf(),
            r.registry() == Map::<Seq<char>, Seq<ChunkModel>>::empty(),
            r.state_model() == spec_initial_state(),
    {
        let r = DirPlayer {
            chunk_lists: ChunkListRegistry::new(),
            player_state: PlayerState::default(),
        };
        r
    }

    /// Plans the chunk list for `config` and installs it in the registry,
    /// replacing any previous list for that video wholesale. A zero
    /// duration or chunk size is rejected with `InvalidParameter` and
    /// leaves the registry and the session state untouched; the session
    /// state is never touched either way.
    pub fn create_movie_chunk_list(&mut self, config: MovieChunkConfig) -> (r: Result<
        Vec<MovieChunk>,
        PlanError,
    >)
        requires
            old(self).wf(),
        ensures
            final(self).wf(),
            final(self).state_model() == old(self).state_model(),
            ({
                let total = spec_effective_duration(config.total_duration);
                let size = spec_effective_size(config.chunk_size);
                if total == 0 || size == 0 {
                    &&& r == Err::<Vec<MovieChunk>, PlanError>(PlanError::InvalidParameter)
                    &&& final(self).registry() == old(self).registry()
                } else {
                    &&& r matches Ok(chunks) && chunks.deep_view() == spec_plan(
                        config.video_id@,
                        config.chunk_policy@,
                        total as int,
                        size as int,
                    )
                    &&& final(self).registry() == old(self).registry().insert(
                        config.video_id@,
                        spec_plan(config.video_id@, config.chunk_policy@, total as int, size as int),
                    )
                }
            }),
    {
        let total_duration = match config.total_duration {
            Some(t) => t,
            None => DEFAULT_TOTAL_DURATION,
        };
        let chunk_size = match config.chunk_size {
            Some(c) => c,
            None => DEFAULT_CHUNK_SIZE,
        };
        if total_duration == 0 || chunk_size == 0 {
            return Err(PlanError::InvalidParameter);
        }
        let chunks = generate_chunks(
            config.video_id.as_str(),
            config.chunk_policy.as_str(),
            total_duration,
            chunk_size,
        );
        let stored = clone_chunk_list(&chunks);
        self.chunk_lists.insert(config.video_id, stored);
        Ok(chunks)
    }

    /// Applies one playback event to the session state, per the
    /// transition table, and returns the advisory hint. The registry is
    /// never touched. An absent chunk index means zero.
    pub fn on_movie_chunk_list_changed(
        &mut self,
        video_id: &str,
        event_type: &str,
        chunk_index: Option<usize>,
    ) -> (h: ChunkEventHint)
        requires
            old(self).wf(),
            event_type@ == "chunk_ended"@ ==> spec_effective_index(chunk_index) < usize::MAX,
        ensures
            final(self).wf(),
            final(self).registry() == old(self).registry(),
            final(self).state_model() == spec_apply_event(
                old(self).state_model(),
                video_id@,
                event_type@,
                spec_effective_index(chunk_index),
            ),
            h == spec_event_hint(event_type@),
            !spec_recognized_event(event_type@) ==> *final(self) == *old(self),
    {
        let idx = match chunk_index {
            Some(i) => i,
            None => 0,
        };
        if str_eq(event_type, "chunk_started") {
            self.player_state.current_video_id = Some(String::from_str(video_id));
            self.player_state.current_chunk_index = idx;
            self.player_state.is_playing = true;
        } else if str_eq(event_type, "chunk_ended") {
            self.player_state.current_chunk_index = idx + 1;
        } else if str_eq(event_type, "playback_paused") {
            self.player_state.is_playing = false;
        } else if str_eq(event_type, "playback_resumed") {
            self.player_state.is_playing = true;
        } else if str_eq(event_type, "playback_completed") {
            self.player_state.is_playing = false;
            self.player_state.current_chunk_index = 0;
        }
        proof {
            assert(self.player_state@ =~= spec_apply_event(
                old(self).state_model(),
                video_id@,
                event_type@,
                spec_effective_index(chunk_index),
            ));
        }
        handle_chunk_event(video_id, event_type, idx)
    }

    /// A snapshot of the current session state.
    pub fn get_player_state(&self) -> (r: PlayerState)
        ensures
            r@ == self.state_model(),
    {
        let current_video_id = match &self.player_state.current_video_id {
            Some(v) => Some(v.clone()),
            None => None,
        };
        let r = PlayerState {
            current_video_id,
            current_chunk_index: self.player_state.current_chunk_index,
            is_playing: self.player_state.is_playing,
            playback_speed: self.player_state.playback_speed,
        };
        proof {
            assert(r@ =~= self.player_state@);
        }
        r
    }

    /// Overwrites the stored speed unconditionally: intentional
    /// pass-through, with no validation of the value.
    pub fn set_playback_speed(&mut self, speed: u64)
        requires
            old(self).wf(),
        ensures
            final(self).wf(),
            final(self).registry() == old(self).registry(),
            final(self).state_model() == (StateModel {
                playback_speed: speed,
                ..old(self).state_model()
            }),
    {
        self.player_state.playback_speed = speed;
        proof {
            assert(self.player_state@ =~= (StateModel {
                playback_speed: speed,
                ..old(self).state_model()
            }));
        }
    }

    /// The chunk list previously planned for `video_id`, if any.
    pub fn get_chunk_list(&self, video_id: &str) -> (r: Option<&Vec<MovieChunk>>)
        requires
            self.wf(),
        ensures
            match r {
                Some(chunks) => self.registry().contains_key(video_id@) && chunks.deep_view()
                    == self.registry()[video_id@],
                None => !self.registry().contains_key(video_id@),
            },
    {
        self.chunk_lists.get(video_id)
    }
}

/// `playback_completed` always resets the chunk index to zero and stops
/// playback, whatever the prior state, while the current video and the
/// speed are retained.
pub proof fn lemma_completed_resets_state(s: StateModel, video_id: Seq<char>, idx: nat)
    ensures
        spec_apply_event(s, video_id, "playback_completed"@, idx).current_chunk_index == 0,
        !spec_apply_event(s, video_id, "playback_completed"@, idx).is_playing,
        spec_apply_event(s, video_id, "playback_completed"@, idx).current_video_id
            == s.current_video_id,
        spec_apply_event(s, video_id, "playback_completed"@, idx).playback_speed
            == s.playback_speed,
{
    reveal_strlit("chunk_started");
    reveal_strlit("chunk_ended");
    reveal_strlit("playback_paused");
    reveal_strlit("playback_resumed");
    reveal_strlit("playback_completed");
    assert("playback_completed"@.len() != "chunk_started"@.len());
    assert("playback_completed"@.len() != "chunk_ended"@.len());
    assert("playback_completed"@.len() != "playback_paused"@.len());
    assert("playback_completed"@.len() != "playback_resumed"@.len());
}

/// An event type the transition table does not know leaves the state
/// unchanged.
pub proof fn lemma_unknown_event_is_noop(
    s: StateModel,
    video_id: Seq<char>,
    event_type: Seq<char>,
    idx: nat,
)
    requires
        !spec_recognized_event(event_type),
    ensures
        spec_apply_event(s, video_id, event_type, idx) == s,
{
}

} // verus!
