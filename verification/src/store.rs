//! The note store: a root directory, a cache of rendered notes and the
//! highlighting resources.
//!
//! The store reads no file itself. Its caller looks at the disk and hands
//! over what it found as a [`Source`]; the store decides what to answer and
//! asks for the file to be read when it has no fresh render.
//!
//! Queries take the store by shared reference, so that any number of them
//! can run side by side, rendering included. Only storing a render,
//! invalidating and clearing take it by exclusive reference, and they do no
//! more than change the cache.

use crate::assets::{
    asset_at, joined_path, lemma_note_id_names_one_file, lemma_scan_of_named_files,
    note_file_name, note_id, note_id_of, note_path, scan_assets, scanned, DirectoryEntry,
    EntryView,
};
use crate::cache::{cache_hit, CachedView, NoteCache};
use crate::front_matter::{extract_metadata, front_matter, metadata_of, split_front_matter};
use crate::note::{assembled, Note, NoteView};
use crate::pattern::pattern_compiles;
use crate::render::{markdown_html, nothing_replaced, rendered, Highlighter, CODE_BLOCK_PATTERN};
use vstd::prelude::*;

verus! {

#[verifier::external_type_specification]
#[verifier::external_body]
pub struct ExIoError(std::io::Error);

/// The value of a [`Source`].
pub enum SourceView {
    Missing,
    Present { modified: Option<i128> },
    Loaded { text: Seq<char>, attachments: Seq<EntryView>, modified: Option<i128> },
    Failed(std::io::Error),
}

/// What the caller found on disk for one note file. Modification times are
/// nanoseconds since the Unix epoch, `None` where the time could not be
/// read.
#[derive(Debug)]
pub enum Source {
    /// There is no such file.
    Missing,
    /// The file exists; it has not been read.
    Present { modified: Option<i128> },
    /// The file was read: its text, the entries of its attachment directory
    /// (none where there is no such directory) and its modification time.
    Loaded { text: String, attachments: Vec<DirectoryEntry>, modified: Option<i128> },
    /// The file exists and reading it failed.
    Failed(std::io::Error),
}

impl View for Source {
    type V = SourceView;

    open spec fn view(&self) -> SourceView {
        match self {
            Source::Missing => SourceView::Missing,
            Source::Present { modified } => SourceView::Present { modified: *modified },
            Source::Loaded { text, attachments, modified } => SourceView::Loaded {
                text: text@,
                attachments: attachments.deep_view(),
                modified: *modified,
            },
            Source::Failed(error) => SourceView::Failed(*error),
        }
    }
}

/// The value of a [`Render`].
pub struct RenderView {
    pub id: Seq<char>,
    pub note: NoteView,
    pub last_modified: i128,
}

/// A note just rendered from its file, to be stored in the cache: the id it
/// was asked for under, the note, and the modification time of the file.
#[derive(Debug)]
pub struct Render {
    pub id: String,
    pub note: Note,
    pub last_modified: i128,
}

impl View for Render {
    type V = RenderView;

    open spec fn view(&self) -> RenderView {
        RenderView { id: self.id@, note: self.note@, last_modified: self.last_modified }
    }
}

impl DeepView for Render {
    type V = RenderView;

    open spec fn deep_view(&self) -> RenderView {
        self@
    }
}

/// The value of a [`Step`].
pub enum StepView {
    Done(Result<Option<NoteView>, std::io::Error>),
    Fresh(RenderView),
    Read,
}

/// The store's answer to a query for one note.
#[derive(Debug)]
pub enum Step {
    /// The query is answered: the note, `None` for "not found", or the
    /// error that reading the file gave.
    Done(Result<Option<Note>, std::io::Error>),
    /// The query is answered with the note of this render, which the
    /// caller is to hand to [`NoteStore::remember`].
    Fresh(Render),
    /// The store has no fresh render: the caller is to read the file and
    /// ask again with what it read.
    Read,
}

impl View for Step {
    type V = StepView;

    open spec fn view(&self) -> StepView {
        match self {
            Step::Done(Ok(Some(note))) => StepView::Done(Ok(Some(note@))),
            Step::Done(Ok(None)) => StepView::Done(Ok(None)),
            Step::Done(Err(error)) => StepView::Done(Err(*error)),
            Step::Fresh(render) => StepView::Fresh(render@),
            Step::Read => StepView::Read,
        }
    }
}

/// The value of a [`ListedFile`].
pub struct ListedView {
    pub name: Seq<char>,
    pub source: SourceView,
}

/// One file of the root directory: its name and what was found of it.
#[derive(Debug)]
pub struct ListedFile {
    pub name: String,
    pub source: Source,
}

impl View for ListedFile {
    type V = ListedView;

    open spec fn view(&self) -> ListedView {
        ListedView { name: self.name@, source: self.source@ }
    }
}

impl DeepView for ListedFile {
    type V = ListedView;

    open spec fn deep_view(&self) -> ListedView {
        self@
    }
}

/// The value of a [`Listing`].
pub struct ListingView {
    pub notes: Seq<NoteView>,
    pub renders: Seq<RenderView>,
}

/// The notes of a directory, in directory order, and those renders among
/// them that are new and to be stored with [`NoteStore::remember_all`].
#[derive(Debug)]
pub struct Listing {
    pub notes: Vec<Note>,
    pub renders: Vec<Render>,
}

impl View for Listing {
    type V = ListingView;

    open spec fn view(&self) -> ListingView {
        ListingView { notes: self.notes.deep_view(), renders: self.renders.deep_view() }
    }
}

/// The value of a [`ListStep`].
pub enum ListStepView {
    Done(ListingView),
    Read(Seq<usize>),
}

/// The store's answer to a query for all notes.
#[derive(Debug)]
pub enum ListStep {
    /// The query is answered with this listing.
    Done(Listing),
    /// The store has no fresh render of the files at these indices: the
    /// caller is to read them and ask again with what it read.
    Read(Vec<usize>),
}

impl View for ListStep {
    type V = ListStepView;

    open spec fn view(&self) -> ListStepView {
        match self {
            ListStep::Done(listing) => ListStepView::Done(listing@),
            ListStep::Read(indices) => ListStepView::Read(indices@),
        }
    }
}

/// The note that a file's text describes, with the attachments found
/// beside it; `None` where the front matter is missing or does not describe
/// a note, or the body cannot be rendered.
pub open spec fn parsed(text: Seq<char>, attachments: Seq<EntryView>) -> Option<NoteView> {
    let split = front_matter(text);
    match split.data {
        Some(tree) => match (metadata_of(tree), rendered(split.body)) {
            (Some(meta), Some(content)) => Some(assembled(meta, content, scanned(attachments))),
            _ => None,
        },
        None => None,
    }
}

/// The answer to a query for the note `id`, given the cache and what was
/// found on disk.
///
/// A missing file is "not found". A file found unread is answered from the
/// cache where the cached render is fresh; else it is to be read. A file
/// that was read is rendered: a text that describes no note is "not found";
/// a note is a fresh render where the file's modification time is known,
/// and a plain answer where it is not. A failed read gives its error.
pub open spec fn answer(
    cache: Map<Seq<char>, CachedView>,
    id: Seq<char>,
    source: SourceView,
) -> StepView {
    match source {
        SourceView::Missing => StepView::Done(Ok(None)),
        SourceView::Present { modified } => match cache_hit(cache, id, modified) {
            Some(note) => StepView::Done(Ok(Some(note))),
            None => StepView::Read,
        },
        SourceView::Loaded { text, attachments, modified } => match (
            parsed(text, attachments),
            modified,
        ) {
            (Some(note), Some(last_modified)) => StepView::Fresh(
                RenderView { id, note, last_modified },
            ),
            (Some(note), None) => StepView::Done(Ok(Some(note))),
            (None, _) => StepView::Done(Ok(None)),
        },
        SourceView::Failed(error) => StepView::Done(Err(error)),
    }
}

/// The note that an answer carries, if it carries one.
pub open spec fn note_of(step: StepView) -> Option<NoteView> {
    match step {
        StepView::Done(Ok(Some(note))) => Some(note),
        StepView::Fresh(render) => Some(render.note),
        _ => None,
    }
}

/// The cache with one render stored, in place of any earlier render of
/// that id.
pub open spec fn remembered(
    cache: Map<Seq<char>, CachedView>,
    render: RenderView,
) -> Map<Seq<char>, CachedView> {
    cache.insert(render.id, CachedView { note: render.note, last_modified: render.last_modified })
}

/// The cache with the first `count` renders stored, one after the other.
pub open spec fn remembered_prefix(
    cache: Map<Seq<char>, CachedView>,
    renders: Seq<RenderView>,
    count: int,
) -> Map<Seq<char>, CachedView>
    decreases count,
{
    if count <= 0 {
        cache
    } else {
        remembered(remembered_prefix(cache, renders, count - 1), renders[count - 1])
    }
}

/// The answer to the query that a listed file stands for; `None` for a
/// file whose name is not that of a note file.
pub open spec fn listed_answer(cache: Map<Seq<char>, CachedView>, file: ListedView) -> Option<
    StepView,
> {
    match note_id_of(file.name) {
        Some(id) => Some(answer(cache, id, file.source)),
        None => None,
    }
}

/// The notes of the first `count` files of a listing: of each file that
/// has the name of a note file and whose query is answered with a note, in
/// the order of the files.
pub open spec fn listed_notes(
    cache: Map<Seq<char>, CachedView>,
    files: Seq<ListedView>,
    count: int,
) -> Seq<NoteView>
    decreases count,
{
    if count <= 0 {
        Seq::empty()
    } else {
        let before = listed_notes(cache, files, count - 1);
        match listed_answer(cache, files[count - 1]) {
            Some(step) => match note_of(step) {
                Some(note) => before.push(note),
                None => before,
            },
            None => before,
        }
    }
}

/// The fresh renders of the first `count` files of a listing, in the order
/// of the files.
pub open spec fn listed_renders(
    cache: Map<Seq<char>, CachedView>,
    files: Seq<ListedView>,
    count: int,
) -> Seq<RenderView>
    decreases count,
{
    if count <= 0 {
        Seq::empty()
    } else {
        let before = listed_renders(cache, files, count - 1);
        match listed_answer(cache, files[count - 1]) {
            Some(StepView::Fresh(render)) => before.push(render),
            _ => before,
        }
    }
}

/// The indices, among the first `count` files, of those that have to be
/// read before they can be listed: the cache has no fresh render of them.
pub open spec fn unread_prefix(
    cache: Map<Seq<char>, CachedView>,
    files: Seq<ListedView>,
    count: int,
) -> Seq<usize>
    decreases count,
{
    if count <= 0 {
        Seq::empty()
    } else {
        let before = unread_prefix(cache, files, count - 1);
        if listed_answer(cache, files[count - 1]) == Some(StepView::Read) {
            before.push((count - 1) as usize)
        } else {
            before
        }
    }
}

/// The answer to a query for all notes, given the cache and the files of
/// the root directory in directory order: the indices of the files that
/// have to be read, where there are any; else the notes of the files that
/// have the name of a note file and give a note, with the fresh renders
/// among them.
pub open spec fn listing(cache: Map<Seq<char>, CachedView>, files: Seq<ListedView>) -> ListStepView {
    let unread = unread_prefix(cache, files, files.len() as int);
    if unread.len() > 0 {
        ListStepView::Read(unread)
    } else {
        ListStepView::Done(
            ListingView {
                notes: listed_notes(cache, files, files.len() as int),
                renders: listed_renders(cache, files, files.len() as int),
            },
        )
    }
}

/// The note store.
pub struct NoteStore {
    root_path: String,
    highlighter: Highlighter,
    note_cache: NoteCache,
}

impl NoteStore {
    /// The root directory of the store.
    pub closed spec fn root(&self) -> Seq<char> {
        self.root_path@
    }

    /// The cache of the store.
    pub closed spec fn cache(&self) -> Map<Seq<char>, CachedView> {
        self.note_cache@
    }

    /// A store over the directory `root_path`, with the highlighting
    /// resources loaded and an empty cache. The directory is the caller's
    /// to create.
    pub fn new(root_path: String) -> (r: NoteStore)
        ensures
            r.root() == root_path@,
            r.cache() == Map::<Seq<char>, CachedView>::empty(),
    {
        NoteStore { root_path, highlighter: Highlighter::new(), note_cache: NoteCache::new() }
    }

    /// The root directory of the store.
    pub fn root_path(&self) -> (r: &String)
        ensures
            r@ == self.root(),
    {
        &self.root_path
    }

    /// The path of the file that holds the note `id`.
    pub fn note_path(&self, id: &str) -> (r: String)
        ensures
            r@ == joined_path(self.root(), note_file_name(id@)),
    {
        note_path(self.root_path.as_str(), id)
    }

    /// Turns the text of a note file into a note: front matter, then the
    /// rendering pipeline on the body, then the attachments found in
    /// `attachments`.
    pub fn parse_note(&self, content: &str, attachments: &Vec<DirectoryEntry>) -> (r: Option<Note>)
        ensures
            r.deep_view() == parsed(content@, attachments.deep_view()),
            r matches Some(note) ==> (nothing_replaced(markdown_html(front_matter(content@).body))
                ==> note.content@ == markdown_html(front_matter(content@).body)),
    {
        let split = split_front_matter(content);
        let meta = match &split.data {
            Some(value) => match extract_metadata(value) {
                Some(meta) => meta,
                None => {
                    return None;
                },
            },
            None => {
                return None;
            },
        };
        let rendered = match self.highlighter.render(split.body.as_str()) {
            Some(rendered) => rendered,
            None => {
                return None;
            },
        };
        let assets = scan_assets(attachments);
        Some(Note::assemble(meta, rendered, assets))
    }

    /// Whether the cache holds a render of `id` that is still valid for a
    /// file whose modification time is `current`.
    pub fn is_cache_valid(&self, id: &str, current: Option<i128>) -> (r: bool)
        ensures
            r == cache_hit(self.cache(), id@, current).is_some(),
    {
        self.note_cache.is_valid(id, current)
    }

    /// Serves a query for the note `id` without the error of a failed read:
    /// that case is answered like a missing file.
    fn serve(&self, id: &str, source: &Source) -> (r: Step)
        ensures
            source@ is Failed ==> r@ == StepView::Done(Ok(None)),
            !(source@ is Failed) ==> r@ == answer(self.cache(), id@, source@),
    {
        match source {
            Source::Missing => Step::Done(Ok(None)),
            Source::Present { modified } => match self.note_cache.get(id, *modified) {
                Some(note) => Step::Done(Ok(Some(note))),
                None => Step::Read,
            },
            Source::Loaded { text, attachments, modified } => {
                match (self.parse_note(text.as_str(), attachments), modified) {
                    (Some(note), Some(last_modified)) => Step::Fresh(
                        Render { id: String::from_str(id), note, last_modified: *last_modified },
                    ),
                    (Some(note), None) => Step::Done(Ok(Some(note))),
                    (None, _) => Step::Done(Ok(None)),
                }
            },
            Source::Failed(_) => Step::Done(Ok(None)),
        }
    }

    /// Answers a query for the note `id`, given what was found on disk: see
    /// [`answer`]. The cache is consulted and not changed.
    pub fn get_note(&self, id: &str, source: Source) -> (r: Step)
        ensures
            r@ == answer(self.cache(), id@, source@),
    {
        match source {
            Source::Failed(error) => Step::Done(Err(error)),
            other => self.serve(id, &other),
        }
    }

    /// The indices of the listed files that have to be read before they can
    /// be listed.
    pub fn unread(&self, files: &Vec<ListedFile>) -> (r: Vec<usize>)
        ensures
            r@ == unread_prefix(self.cache(), files.deep_view(), files.len() as int),
    {
        let mut indices: Vec<usize> = Vec::new();
        let mut i: usize = 0;
        while i < files.len()
            invariant
                i <= files.len(),
                indices@ == unread_prefix(self.cache(), files.deep_view(), i as int),
            decreases files.len() - i,
        {
            let due = match (note_id(files[i].name.as_str()), &files[i].source) {
                (Some(id), Source::Present { modified }) => !self.note_cache.is_valid(
                    id.as_str(),
                    *modified,
                ),
                _ => false,
            };
            if due {
                indices.push(i);
            }
            i = i + 1;
        }
        indices
    }

    /// The notes among the listed files, with the fresh renders among
    /// them. A file that is stale and unread is passed over here; the
    /// caller sees to it that there is none.
    fn listed(&self, files: &Vec<ListedFile>) -> (r: Listing)
        ensures
            r@.notes == listed_notes(self.cache(), files.deep_view(), files.len() as int),
            r@.renders == listed_renders(self.cache(), files.deep_view(), files.len() as int),
    {
        let mut notes: Vec<Note> = Vec::new();
        let mut renders: Vec<Render> = Vec::new();
        let mut i: usize = 0;
        while i < files.len()
            invariant
                i <= files.len(),
                notes.deep_view() == listed_notes(self.cache(), files.deep_view(), i as int),
                renders.deep_view() == listed_renders(self.cache(), files.deep_view(), i as int),
            decreases files.len() - i,
        {
            match note_id(files[i].name.as_str()) {
                Some(id) => match self.serve(id.as_str(), &files[i].source) {
                    Step::Done(Ok(Some(note))) => {
                        notes.push(note);
                    },
                    Step::Fresh(render) => {
                        notes.push(render.note.clone());
                        renders.push(render);
                    },
                    _ => {},
                },
                None => {},
            }
            i = i + 1;
        }
        Listing { notes, renders }
    }

    /// Lists the notes of the root directory, given its files in directory
    /// order.
    ///
    /// Where the cache has no fresh render of some file that was found
    /// unread, the answer is the indices of all such files, and nothing is
    /// listed: the caller reads them and asks again. Else every file that
    /// has the name of a note file is served as by [`NoteStore::get_note`]
    /// and listed where that yields a note; a file that is unreadable or
    /// does not describe a note is silently left out. The cache is
    /// consulted and not changed.
    pub fn list_notes(&self, files: &Vec<ListedFile>) -> (r: ListStep)
        ensures
            r@ == listing(self.cache(), files.deep_view()),
    {
        let unread = self.unread(files);
        if unread.len() > 0 {
            ListStep::Read(unread)
        } else {
            ListStep::Done(self.listed(files))
        }
    }

    /// Stores a render in the cache, in place of any earlier render of the
    /// same id.
    pub fn remember(&mut self, render: &Render)
        ensures
            final(self).cache() == remembered(old(self).cache(), render@),
            final(self).root() == old(self).root(),
    {
        self.note_cache.insert(render.id.clone(), render.note.clone(), render.last_modified);
    }

    /// Stores renders in the cache, first to last.
    pub fn remember_all(&mut self, renders: &Vec<Render>)
        ensures
            final(self).cache() == remembered_prefix(
                old(self).cache(),
                renders.deep_view(),
                renders.len() as int,
            ),
            final(self).root() == old(self).root(),
    {
        let mut i: usize = 0;
        while i < renders.len()
            invariant
                i <= renders.len(),
                self.cache() == remembered_prefix(old(self).cache(), renders.deep_view(), i as int),
                self.root() == old(self).root(),
            decreases renders.len() - i,
        {
            self.remember(&renders[i]);
            i = i + 1;
        }
    }

    /// Empties the cache: every note is rendered anew when next asked for.
    pub fn clear_cache(&mut self)
        ensures
            final(self).cache() == Map::<Seq<char>, CachedView>::empty(),
            final(self).root() == old(self).root(),
    {
        self.note_cache.clear();
    }

    /// Removes the note `id` from the cache.
    pub fn invalidate_cache(&mut self, id: &str)
        ensures
            final(self).cache() == old(self).cache().remove(id@),
            final(self).root() == old(self).root(),
    {
        self.note_cache.invalidate(id);
    }
}

/// Rendering is a function of the file's text: two renders of one text
/// succeed or fail together and, where they succeed, give the same
/// metadata and the same content, byte for byte, whatever attachments
/// were found beside the file each time.
pub proof fn lemma_render_is_repeatable(
    text: Seq<char>,
    first_attachments: Seq<EntryView>,
    second_attachments: Seq<EntryView>,
)
    ensures
        parsed(text, first_attachments).is_some() == parsed(text, second_attachments).is_some(),
        parsed(text, first_attachments).is_some() ==> {
            let first = parsed(text, first_attachments).unwrap();
            let second = parsed(text, second_attachments).unwrap();
            first.content == second.content && first.metadata() == second.metadata()
        },
        first_attachments == second_attachments ==> parsed(text, first_attachments) == parsed(
            text,
            second_attachments,
        ),
{
}

/// A file's text gives a note exactly where its front matter describes one
/// and the code block pattern compiles.
pub proof fn lemma_parse_succeeds(text: Seq<char>, attachments: Seq<EntryView>)
    ensures
        parsed(text, attachments).is_some() <==> (front_matter(text).data matches Some(tree)
            && metadata_of(tree).is_some()) && pattern_compiles(CODE_BLOCK_PATTERN@),
{
}

/// The attachments of a note are those scanned from the entries found
/// beside its file: none where there was no entry, and one for each entry
/// where every entry is a regular file with a file name.
pub proof fn lemma_note_has_the_scanned_assets(text: Seq<char>, attachments: Seq<EntryView>)
    requires
        parsed(text, attachments).is_some(),
    ensures
        parsed(text, attachments).unwrap().assets == scanned(attachments),
        attachments.len() == 0 ==> parsed(text, attachments).unwrap().assets.len() == 0,
        (forall|i: int|
            0 <= i < attachments.len() ==> (#[trigger] attachments[i]).is_file && asset_at(
                attachments[i].path,
            ).is_some()) ==> parsed(text, attachments).unwrap().assets.len() == attachments.len(),
{
    if forall|i: int|
        0 <= i < attachments.len() ==> (#[trigger] attachments[i]).is_file && asset_at(
            attachments[i].path,
        ).is_some() {
        lemma_scan_of_named_files(attachments, attachments.len() as int);
    }
}

/// After a file was read and its render stored, a second query is answered
/// from the cache with the same note, and without a read, as long as the
/// file's modification time has not moved forward; once it has, the store
/// asks for the file to be read again.
pub proof fn lemma_second_query(
    cache: Map<Seq<char>, CachedView>,
    id: Seq<char>,
    text: Seq<char>,
    attachments: Seq<EntryView>,
    stored: i128,
    current: i128,
)
    requires
        parsed(text, attachments).is_some(),
    ensures
        ({
            let read = SourceView::Loaded { text, attachments, modified: Some(stored) };
            let again = SourceView::Present { modified: Some(current) };
            let note = parsed(text, attachments).unwrap();
            let render = RenderView { id, note, last_modified: stored };
            &&& answer(cache, id, read) == StepView::Fresh(render)
            &&& current <= stored ==> answer(remembered(cache, render), id, again)
                == StepView::Done(Ok(Some(note)))
            &&& current > stored ==> answer(remembered(cache, render), id, again) == StepView::Read
        }),
{
}

/// A query for a note that has no file is answered "not found", never with
/// an error, whatever the cache holds.
pub proof fn lemma_missing_is_not_found(cache: Map<Seq<char>, CachedView>, id: Seq<char>)
    ensures
        answer(cache, id, SourceView::Missing) == StepView::Done(Ok(None)),
{
}

/// Where no listed file has to be read, none is answered with a request to
/// read it: a file is left out of the listing only because it cannot give
/// a note, never because its render was stale.
pub proof fn lemma_no_stale_file_is_left_out(
    cache: Map<Seq<char>, CachedView>,
    files: Seq<ListedView>,
    count: int,
)
    requires
        0 <= count <= files.len(),
        unread_prefix(cache, files, count).len() == 0,
    ensures
        forall|i: int|
            0 <= i < count ==> listed_answer(cache, #[trigger] files[i]) != Some(StepView::Read),
    decreases count,
{
    if count > 0 {
        lemma_no_stale_file_is_left_out(cache, files, count - 1);
    }
}

/// Every fresh render of a listing has the id that the name of one of the
/// listed files gives.
pub proof fn lemma_render_comes_from_a_file(
    cache: Map<Seq<char>, CachedView>,
    files: Seq<ListedView>,
    count: int,
    k: int,
)
    requires
        0 <= count <= files.len(),
        0 <= k < listed_renders(cache, files, count).len(),
    ensures
        exists|j: int|
            0 <= j < count && #[trigger] note_id_of(files[j].name) == Some(
                listed_renders(cache, files, count)[k].id,
            ),
    decreases count,
{
    if count > 0 {
        let before = listed_renders(cache, files, count - 1);
        if k < before.len() {
            lemma_render_comes_from_a_file(cache, files, count - 1, k);
        } else {
            assert(note_id_of(files[count - 1].name) == Some(
                listed_renders(cache, files, count)[k].id,
            ));
        }
    }
}

/// Where the names of the listed files are pairwise distinct, as the names
/// of the files of one directory are, so are the ids under which the fresh
/// renders of the listing are stored: no render of a listing replaces
/// another.
pub proof fn lemma_render_ids_are_distinct(
    cache: Map<Seq<char>, CachedView>,
    files: Seq<ListedView>,
    count: int,
)
    requires
        0 <= count <= files.len(),
        forall|i: int, j: int| 0 <= i < j < count ==> files[i].name != files[j].name,
    ensures
        forall|a: int, b: int|
            0 <= a < b < listed_renders(cache, files, count).len() ==> listed_renders(
                cache,
                files,
                count,
            )[a].id != listed_renders(cache, files, count)[b].id,
    decreases count,
{
    if count > 0 {
        lemma_render_ids_are_distinct(cache, files, count - 1);
        let before = listed_renders(cache, files, count - 1);
        let now = listed_renders(cache, files, count);
        assert forall|a: int, b: int| 0 <= a < b < now.len() implies now[a].id != now[b].id by {
            if b >= before.len() {
                lemma_render_comes_from_a_file(cache, files, count - 1, a);
                let j = choose|j: int|
                    0 <= j < count - 1 && #[trigger] note_id_of(files[j].name) == Some(
                        before[a].id,
                    );
                if now[a].id == now[b].id {
                    lemma_note_id_names_one_file(files[j].name, files[count - 1].name);
                }
            }
        }
    }
}

/// A listed file that cannot give a note (its name is not that of a note
/// file, it is gone, it could not be read, or its text does not describe a
/// note) adds nothing to the listing and takes nothing from it.
pub proof fn lemma_bad_file_is_left_out(
    cache: Map<Seq<char>, CachedView>,
    files: Seq<ListedView>,
    count: int,
)
    requires
        0 < count <= files.len(),
        ({
            let file = files[count - 1];
            ||| note_id_of(file.name).is_none()
            ||| file.source is Failed
            ||| file.source is Missing
            ||| (file.source matches SourceView::Loaded { text, attachments, .. } && parsed(
                text,
                attachments,
            ).is_none())
        }),
    ensures
        listed_notes(cache, files, count) == listed_notes(cache, files, count - 1),
        listed_renders(cache, files, count) == listed_renders(cache, files, count - 1),
{
}

/// A listed file that has the name of a note file, was read and describes
/// a note is listed, as the last of the notes so far.
pub proof fn lemma_good_file_is_listed(
    cache: Map<Seq<char>, CachedView>,
    files: Seq<ListedView>,
    count: int,
)
    requires
        0 < count <= files.len(),
        note_id_of(files[count - 1].name).is_some(),
        files[count - 1].source matches SourceView::Loaded { text, attachments, .. } && parsed(
            text,
            attachments,
        ).is_some(),
    ensures
        listed_notes(cache, files, count) == listed_notes(cache, files, count - 1).push(
            parsed(
                files[count - 1].source->Loaded_text,
                files[count - 1].source->Loaded_attachments,
            ).unwrap(),
        ),
{
}

} // verus!
