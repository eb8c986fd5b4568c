//! The cache of rendered notes, keyed by note id.
//!
//! Each entry carries the modification time that the source file had when
//! the note was rendered. An entry is served only while the file is no
//! newer than that. The cache never renders: its user fills it.

use crate::note::{Note, NoteView};
use vstd::hash_map::StringHashMap;
use vstd::prelude::*;

verus! {

/// A rendered note and the modification time of its file at render time,
/// as a mathematical value. Times are nanoseconds since the Unix epoch.
pub struct CachedView {
    pub note: NoteView,
    pub last_modified: i128,
}

/// A rendered note and the modification time of its file at render time.
struct CachedNote {
    note: Note,
    last_modified: i128,
}

impl View for CachedNote {
    type V = CachedView;

    closed spec fn view(&self) -> CachedView {
        CachedView { note: self.note@, last_modified: self.last_modified }
    }
}

/// Whether an entry may still be served: the file's current modification
/// time is known and the entry is no older. A time that could not be read
/// makes the entry stale.
pub open spec fn fresh(cached: CachedView, current: Option<i128>) -> bool {
    match current {
        Some(modified) => cached.last_modified >= modified,
        None => false,
    }
}

/// The note that the cache serves for `id`: that of a fresh entry.
pub open spec fn cache_hit(
    cache: Map<Seq<char>, CachedView>,
    id: Seq<char>,
    current: Option<i128>,
) -> Option<NoteView> {
    if cache.contains_key(id) && fresh(cache[id], current) {
        Some(cache[id].note)
    } else {
        None
    }
}

/// The cache: a map from note id to the last render of that note.
pub struct NoteCache {
    entries: StringHashMap<CachedNote>,
}

impl View for NoteCache {
    type V = Map<Seq<char>, CachedView>;

    closed spec fn view(&self) -> Map<Seq<char>, CachedView> {
        self.entries@.map_values(|cached: CachedNote| cached@)
    }
}

impl NoteCache {
    /// An empty cache.
    pub fn new() -> (r: NoteCache)
        ensures
            r@ == Map::<Seq<char>, CachedView>::empty(),
    {
        let cache = NoteCache { entries: StringHashMap::new() };
        cache
    }

    /// Whether the entry of `id`, if there is one, may still be served for
    /// a file whose modification time is `current`.
    pub fn is_valid(&self, id: &str, current: Option<i128>) -> (r: bool)
        ensures
            r == cache_hit(self@, id@, current).is_some(),
    {
        match (self.entries.get(id), current) {
            (Some(cached), Some(modified)) => cached.last_modified >= modified,
            _ => false,
        }
    }

    /// A copy of the cached note of `id`, where its entry is fresh.
    pub fn get(&self, id: &str, current: Option<i128>) -> (r: Option<Note>)
        ensures
            r.deep_view() == cache_hit(self@, id@, current),
    {
        match (self.entries.get(id), current) {
            (Some(cached), Some(modified)) => {
                if cached.last_modified >= modified {
                    Some(cached.note.clone())
                } else {
                    None
                }
            },
            _ => None,
        }
    }

    /// Stores a render of the note `id`, in place of any earlier one.
    pub fn insert(&mut self, id: String, note: Note, last_modified: i128)
        ensures
            final(self)@ == old(self)@.insert(id@, CachedView { note: note@, last_modified }),
    {
        self.entries.insert(id, CachedNote { note, last_modified });
    }

    /// Removes the entry of `id`, if there is one.
    pub fn invalidate(&mut self, id: &str)
        ensures
            final(self)@ == old(self)@.remove(id@),
    {
        self.entries.remove(id);
    }

    /// Removes every entry.
    pub fn clear(&mut self)
        ensures
            final(self)@ == Map::<Seq<char>, CachedView>::empty(),
    {
        self.entries.clear();
    }
}

/// An entry just stored is served exactly while the file is no newer than
/// the time it was stored with: a file touched forward forces a new render,
/// an untouched file does not.
pub proof fn lemma_cache_serves_until_touched(
    cache: Map<Seq<char>, CachedView>,
    id: Seq<char>,
    note: NoteView,
    stored: i128,
    current: i128,
)
    ensures
        current <= stored ==> cache_hit(
            cache.insert(id, CachedView { note, last_modified: stored }),
            id,
            Some(current),
        ) == Some(note),
        current > stored ==> cache_hit(
            cache.insert(id, CachedView { note, last_modified: stored }),
            id,
            Some(current),
        ).is_none(),
{
}

/// What was invalidated or cleared is no longer served, whatever the file's
/// modification time.
pub proof fn lemma_removed_is_not_served(
    cache: Map<Seq<char>, CachedView>,
    id: Seq<char>,
    current: Option<i128>,
)
    ensures
        cache_hit(cache.remove(id), id, current).is_none(),
        cache_hit(Map::<Seq<char>, CachedView>::empty(), id, current).is_none(),
{
}

} // verus!
