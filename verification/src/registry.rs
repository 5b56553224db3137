//! The chunk-list registry: a mapping from video id to its previously
//! planned chunk list. Entries are created or replaced wholesale by
//! planning requests and never deleted.
//!
//! The registry is held as an association list with pairwise-distinct
//! keys; its mathematical value is a `Map` from the key's characters to
//! the chunk models of the stored list.

use vstd::prelude::*;

use crate::chunk::{ChunkModel, MovieChunk};
use crate::text::str_eq;

verus! {

/// The map described by an association list, later entries taking
/// precedence (irrelevant once keys are distinct).
pub open spec fn spec_entries_map(entries: Seq<(String, Vec<MovieChunk>)>) -> Map<
    Seq<char>,
    Seq<ChunkModel>,
>
    decreases entries.len(),
{
    if entries.len() == 0 {
        Map::empty()
    } else {
        spec_entries_map(entries.drop_last()).insert(
            entries.last().0@,
            entries.last().1.deep_view(),
        )
    }
}

/// Pairwise-distinct keys.
pub open spec fn spec_keys_distinct(entries: Seq<(String, Vec<MovieChunk>)>) -> bool {
    forall|i: int, j: int| 0 <= i < j < entries.len() ==> entries[i].0@ != entries[j].0@
}

/// A key is in the map exactly when some entry holds it.
proof fn lemma_entries_map_contains(entries: Seq<(String, Vec<MovieChunk>)>, key: Seq<char>)
    ensures
        spec_entries_map(entries).contains_key(key) <==> exists|i: int|
            0 <= i < entries.len() && entries[i].0@ == key,
    decreases entries.len(),
{
    if entries.len() > 0 {
        lemma_entries_map_contains(entries.drop_last(), key);
        if spec_entries_map(entries).contains_key(key) {
            if entries.last().0@ == key {
                assert(entries[entries.len() - 1].0@ == key);
            } else {
                let i = choose|i: int|
                    0 <= i < entries.drop_last().len() && entries.drop_last()[i].0@ == key;
                assert(entries[i].0@ == key);
            }
        }
        if exists|i: int| 0 <= i < entries.len() && entries[i].0@ == key {
            let i = choose|i: int| 0 <= i < entries.len() && entries[i].0@ == key;
            if i < entries.len() - 1 {
                assert(entries.drop_last()[i].0@ == key);
            }
        }
    }
}

/// With distinct keys, the map sends each entry's key to that entry's
/// chunk models.
proof fn lemma_entries_map_index(entries: Seq<(String, Vec<MovieChunk>)>, i: int)
    requires
        spec_keys_distinct(entries),
        0 <= i < entries.len(),
    ensures
        spec_entries_map(entries).contains_key(entries[i].0@),
        spec_entries_map(entries)[entries[i].0@] == entries[i].1.deep_view(),
    decreases entries.len(),
{
    if i == entries.len() - 1 {
    } else {
        assert(spec_keys_distinct(entries.drop_last()));
        assert(entries.drop_last()[i] == entries[i]);
        lemma_entries_map_index(entries.drop_last(), i);
        assert(entries[i].0@ != entries.last().0@);
    }
}

/// With distinct keys, removing the entry of a key removes the key.
proof fn lemma_entries_map_remove(entries: Seq<(String, Vec<MovieChunk>)>, j: int)
    requires
        spec_keys_distinct(entries),
        0 <= j < entries.len(),
    ensures
        spec_entries_map(entries.remove(j)) =~= spec_entries_map(entries).remove(entries[j].0@),
    decreases entries.len(),
{
    let key = entries[j].0@;
    if j == entries.len() - 1 {
        assert(entries.remove(j) =~= entries.drop_last());
        lemma_entries_map_contains(entries.drop_last(), key);
        assert(!spec_entries_map(entries.drop_last()).contains_key(key));
        assert(spec_entries_map(entries).remove(key) =~= spec_entries_map(entries.drop_last()));
    } else {
        let shorter = entries.drop_last();
        assert(spec_keys_distinct(shorter));
        lemma_entries_map_remove(shorter, j);
        assert(entries.remove(j).drop_last() =~= shorter.remove(j));
        assert(entries.remove(j).last() == entries.last());
        assert(shorter[j] == entries[j]);
        assert(entries.last().0@ != key);
        assert(spec_entries_map(entries.remove(j)) =~= spec_entries_map(shorter.remove(j)).insert(
            entries.last().0@,
            entries.last().1.deep_view(),
        ));
    }
}

/// The registry of planned chunk lists, keyed by video id.
pub struct ChunkListRegistry {
    entries: Vec<(String, Vec<MovieChunk>)>,
}

impl View for ChunkListRegistry {
    type V = Map<Seq<char>, Seq<ChunkModel>>;

    closed spec fn view(&self) -> Map<Seq<char>, Seq<ChunkModel>> {
        spec_entries_map(self.entries@)
    }
}

impl ChunkListRegistry {
    /// Keys are pairwise distinct, so each video id owns one list.
    pub closed spec fn wf(&self) -> bool {
        spec_keys_distinct(self.entries@)
    }

    /// An empty registry.
    pub fn new() -> (r: ChunkListRegistry)
        ensures
            r.wf(),
            r@ == Map::<Seq<char>, Seq<ChunkModel>>::empty(),
    {
        ChunkListRegistry { entries: Vec::new() }
    }

    /// The index of the entry holding `key`, if any.
    fn find(&self, key: &str) -> (r: Option<usize>)
        ensures
            match r {
                Some(j) => j < self.entries@.len() && self.entries@[j as int].0@ == key@,
                None => forall|i: int|
                    0 <= i < self.entries@.len() ==> self.entries@[i].0@ != key@,
            },
    {
        let mut i: usize = 0;
        let n = self.entries.len();
        while i < n
            invariant
                i <= n,
                n == self.entries@.len(),
                forall|j: int| 0 <= j < i ==> self.entries@[j].0@ != key@,
            decreases n - i,
        {
            if str_eq(self.entries[i].0.as_str(), key) {
                return Some(i);
            }
            i = i + 1;
        }
        None
    }

    /// Installs `chunks` as the list for `video_id`, replacing any
    /// previous entry wholesale.
    pub fn insert(&mut self, video_id: String, chunks: Vec<MovieChunk>)
        requires
            old(self).wf(),
        ensures
            final(self).wf(),
            final(self)@ == old(self)@.insert(video_id@, chunks.deep_view()),
    {
        let found = self.find(video_id.as_str());
        match found {
            Some(j) => {
                let ghost before = self.entries@;
                let _previous = self.entries.remove(j);
                proof {
                    lemma_entries_map_remove(before, j as int);
                    assert(spec_keys_distinct(self.entries@));
                    assert forall|i: int|
                        0 <= i < self.entries@.len() implies self.entries@[i].0@ != video_id@ by {
                        if i < j {
                            assert(before[i].0@ != before[j as int].0@);
                        } else {
                            assert(before[i + 1].0@ != before[j as int].0@);
                        }
                    }
                    assert(old(self)@.remove(video_id@).insert(video_id@, chunks.deep_view())
                        =~= old(self)@.insert(video_id@, chunks.deep_view()));
                }
                let ghost removed = self.entries@;
                self.entries.push((video_id, chunks));
                proof {
                    assert(self.entries@.drop_last() =~= removed);
                    assert(spec_keys_distinct(self.entries@));
                }
            },
            None => {
                let ghost before = self.entries@;
                self.entries.push((video_id, chunks));
                proof {
                    assert(self.entries@.drop_last() =~= before);
                    assert(spec_keys_distinct(self.entries@));
                }
            },
        }
    }

    /// The list previously planned for `video_id`, if any.
    pub fn get(&self, video_id: &str) -> (r: Option<&Vec<MovieChunk>>)
        requires
            self.wf(),
        ensures
            match r {
                Some(chunks) => self@.contains_key(video_id@) && chunks.deep_view()
                    == self@[video_id@],
                None => !self@.contains_key(video_id@),
            },
    {
        proof {
            lemma_entries_map_contains(self.entries@, video_id@);
        }
        let found = self.find(video_id);
        match found {
            Some(j) => {
                proof {
                    lemma_entries_map_index(self.entries@, j as int);
                }
                Some(&self.entries[j].1)
            },
            None => None,
        }
    }
}

} // verus!
