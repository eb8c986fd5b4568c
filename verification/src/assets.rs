//! Attachments: the files in the directory that lies beside a note file.
//!
//! The caller lists that directory; what it found is turned into
//! [`Asset`] records here.

use crate::note::{Asset, AssetView};
use std::path::Path;
use vstd::prelude::*;

verus! {

/// The value of a [`DirectoryEntry`].
pub struct EntryView {
    pub path: Seq<char>,
    pub is_file: bool,
}

/// One entry of a listed directory.
#[derive(Debug)]
pub struct DirectoryEntry {
    /// Path of the entry.
    pub path: String,
    /// Whether the entry is known to be a regular file.
    pub is_file: bool,
}

impl View for DirectoryEntry {
    type V = EntryView;

    open spec fn view(&self) -> EntryView {
        EntryView { path: self.path@, is_file: self.is_file }
    }
}

impl DeepView for DirectoryEntry {
    type V = EntryView;

    open spec fn deep_view(&self) -> EntryView {
        self@
    }
}

/// Whether a text holds no path separator, neither `/` nor `\`.
pub open spec fn no_separator(text: Seq<char>) -> bool {
    forall|i: int| 0 <= i < text.len() ==> text[i] != '/' && text[i] != '\\'
}

/// The final component of a path as `std::path::Path::file_name` gives it;
/// `None` where the path has none.
pub uninterp spec fn path_file_name(path: Seq<char>) -> Option<Seq<char>>;

/// A path with its extension replaced, as `std::path::Path::with_extension`
/// gives it.
pub uninterp spec fn path_with_extension(path: Seq<char>, extension: Seq<char>) -> Seq<char>;

/// A path joined to a directory, as `std::path::Path::join` gives it.
pub uninterp spec fn joined_path(directory: Seq<char>, name: Seq<char>) -> Seq<char>;

/// The essence of the first content type that `mime_guess` knows for the
/// extension of a path; `None` where it knows none.
pub uninterp spec fn known_mime_type(path: Seq<char>) -> Option<Seq<char>>;

/// `Path::file_name`, turned into a `String`. Trusted: the result is what
/// [`path_file_name`] names.
#[verifier::external_body]
fn file_name_of(path: &str) -> (r: Option<String>)
    ensures
        r.deep_view() == path_file_name(path@),
{
    Path::new(path).file_name().map(|name| name.to_string_lossy().into_owned())
}

/// `Path::with_extension`, turned into a `String`. It panics on an
/// extension that holds a path separator, so such an extension is not
/// admitted. Trusted: the result is what [`path_with_extension`] names.
#[verifier::external_body]
fn replace_extension(path: &str, extension: &str) -> (r: String)
    requires
        no_separator(extension@),
    ensures
        r@ == path_with_extension(path@, extension@),
{
    Path::new(path).with_extension(extension).to_string_lossy().into_owned()
}

/// `Path::join`, turned into a `String`. Trusted: the result is what
/// [`joined_path`] names.
#[verifier::external_body]
fn join_path(directory: &str, name: &str) -> (r: String)
    ensures
        r@ == joined_path(directory@, name@),
{
    Path::new(directory).join(name).to_string_lossy().into_owned()
}

/// `mime_guess::from_path`, then `MimeGuess::first` and `Mime::essence_str`.
/// Trusted: the result is what [`known_mime_type`] names.
#[verifier::external_body]
fn guess_mime_type(path: &str) -> (r: Option<String>)
    ensures
        r.deep_view() == known_mime_type(path@),
{
    mime_guess::from_path(path).first().map(|mime| mime.essence_str().to_string())
}

/// A content type, given the known one: that one, or the generic binary
/// type where none is known.
pub open spec fn mime_or_binary(known: Option<Seq<char>>) -> Seq<char> {
    match known {
        Some(mime_type) => mime_type,
        None => "application/octet-stream"@,
    }
}

/// The content type of a path: the known one, or the generic binary type.
pub open spec fn mime_type_of(path: Seq<char>) -> Seq<char> {
    mime_or_binary(known_mime_type(path))
}

/// The attachment at a path, given its file name and its known content
/// type; `None` where it has no file name.
pub open spec fn asset_of(
    path: Seq<char>,
    name: Option<Seq<char>>,
    known: Option<Seq<char>>,
) -> Option<AssetView> {
    match name {
        Some(name) => Some(AssetView { path, name, mime_type: mime_or_binary(known) }),
        None => None,
    }
}

/// The attachment at a path; `None` where the path has no file name.
pub open spec fn asset_at(path: Seq<char>) -> Option<AssetView> {
    asset_of(path, path_file_name(path), known_mime_type(path))
}

/// The attachments among the first `count` entries: of each regular file
/// that has a file name, in the order of the entries.
pub open spec fn scanned_prefix(entries: Seq<EntryView>, count: int) -> Seq<AssetView>
    decreases count,
{
    if count <= 0 {
        Seq::empty()
    } else {
        let before = scanned_prefix(entries, count - 1);
        let entry = entries[count - 1];
        if entry.is_file && asset_at(entry.path).is_some() {
            before.push(asset_at(entry.path).unwrap())
        } else {
            before
        }
    }
}

/// The attachments among the entries of a directory.
pub open spec fn scanned(entries: Seq<EntryView>) -> Seq<AssetView> {
    scanned_prefix(entries, entries.len() as int)
}

/// The name of the file that holds the note `id`.
pub open spec fn note_file_name(id: Seq<char>) -> Seq<char> {
    id + ".md"@
}

/// The id of the note that a file of this name holds: the name without its
/// extension `md`; `None` for a name that is no more than that extension
/// with its dot, or has another.
pub open spec fn note_id_of(name: Seq<char>) -> Option<Seq<char>> {
    let stem = name.len() - 3;
    if stem > 0 && name.subrange(stem, name.len() as int) == ".md"@ {
        Some(name.subrange(0, stem))
    } else {
        None
    }
}

/// A content type, given the known one: the generic binary type where none
/// is known.
pub fn mime_type_or_binary(known: Option<String>) -> (r: String)
    ensures
        r@ == mime_or_binary(known.deep_view()),
{
    match known {
        Some(mime_type) => mime_type,
        None => String::from_str("application/octet-stream"),
    }
}

/// The content type of a path, guessed from its extension. An unknown
/// extension gives the generic binary type.
pub fn mime_type(path: &str) -> (r: String)
    ensures
        r@ == mime_type_of(path@),
{
    mime_type_or_binary(guess_mime_type(path))
}

/// Describes the attachment at `path`, given its file name and its known
/// content type; `None` where it has no file name.
pub fn asset_from(path: &str, name: Option<String>, known: Option<String>) -> (r: Option<Asset>)
    ensures
        r.deep_view() == asset_of(path@, name.deep_view(), known.deep_view()),
{
    match name {
        Some(name) => Some(
            Asset { path: String::from_str(path), name, mime_type: mime_type_or_binary(known) },
        ),
        None => None,
    }
}

/// Describes the attachment at `path`; `None` where the path has no file
/// name.
pub fn create_asset(path: &str) -> (r: Option<Asset>)
    ensures
        r.deep_view() == asset_at(path@),
{
    asset_from(path, file_name_of(path), guess_mime_type(path))
}

/// The attachments of a note, given the entries of its attachment
/// directory (none where the directory does not exist). Entries that are
/// not regular files, or have no file name, are left out.
pub fn scan_assets(entries: &Vec<DirectoryEntry>) -> (r: Vec<Asset>)
    ensures
        r.deep_view() == scanned(entries.deep_view()),
{
    let mut assets: Vec<Asset> = Vec::new();
    let mut i: usize = 0;
    while i < entries.len()
        invariant
            i <= entries.len(),
            assets.deep_view() == scanned_prefix(entries.deep_view(), i as int),
        decreases entries.len() - i,
    {
        if entries[i].is_file {
            match create_asset(entries[i].path.as_str()) {
                Some(asset) => {
                    assets.push(asset);
                },
                None => {},
            }
        }
        i = i + 1;
    }
    assets
}

/// The attachment directory of a note file: its path with the extension
/// `assets` in place of its own.
pub fn assets_dir(note_path: &str) -> (r: String)
    ensures
        r@ == path_with_extension(note_path@, "assets"@),
{
    proof {
        reveal_strlit("assets");
    }
    replace_extension(note_path, "assets")
}

/// The path of the file that holds the note `id` under `root`.
pub fn note_path(root: &str, id: &str) -> (r: String)
    ensures
        r@ == joined_path(root@, note_file_name(id@)),
{
    let mut name = String::from_str(id);
    name.append(".md");
    join_path(root, name.as_str())
}

/// The id of the note that a file of this name holds; `None` where the
/// name does not have the extension `md`.
pub fn note_id(file_name: &str) -> (r: Option<String>)
    ensures
        r.deep_view() == note_id_of(file_name@),
{
    let length = file_name.unicode_len();
    if length <= 3 {
        return None;
    }
    let stem = length - 3;
    let extension = String::from_str(file_name.substring_char(stem, length));
    if extension == String::from_str(".md") {
        Some(String::from_str(file_name.substring_char(0, stem)))
    } else {
        None
    }
}

/// Where every entry is a regular file with a file name, the scan gives one
/// attachment for each entry, in the order of the entries; where there is
/// no entry, it gives none.
pub proof fn lemma_scan_of_named_files(entries: Seq<EntryView>, count: int)
    requires
        0 <= count <= entries.len(),
        forall|i: int|
            0 <= i < count ==> (#[trigger] entries[i]).is_file && asset_at(entries[i].path).is_some(),
    ensures
        scanned_prefix(entries, count).len() == count,
        forall|i: int|
            0 <= i < count ==> #[trigger] scanned_prefix(entries, count)[i] == asset_at(
                entries[i].path,
            ).unwrap(),
    decreases count,
{
    if count > 0 {
        lemma_scan_of_named_files(entries, count - 1);
    }
}

/// An entry that is no regular file, or has no file name, adds nothing to
/// the scan.
pub proof fn lemma_scan_skips(entries: Seq<EntryView>, count: int)
    requires
        0 < count <= entries.len(),
        !entries[count - 1].is_file || asset_at(entries[count - 1].path).is_none(),
    ensures
        scanned_prefix(entries, count) == scanned_prefix(entries, count - 1),
{
}

/// Two file names that hold the note of one id are one name.
pub proof fn lemma_note_id_names_one_file(first: Seq<char>, second: Seq<char>)
    requires
        note_id_of(first).is_some(),
        note_id_of(first) == note_id_of(second),
    ensures
        first == second,
{
    let stem = first.len() - 3;
    assert(first.subrange(0, stem).len() == second.subrange(0, second.len() - 3).len());
    assert forall|i: int| 0 <= i < first.len() implies first[i] == second[i] by {
        if i < stem {
            assert(first[i] == first.subrange(0, stem)[i]);
            assert(second[i] == second.subrange(0, stem)[i]);
        } else {
            assert(first[i] == first.subrange(stem, first.len() as int)[i - stem]);
            assert(second[i] == second.subrange(stem, second.len() as int)[i - stem]);
        }
    }
}

/// A note's file name leads back to its id.
pub proof fn lemma_note_id_of_file_name(id: Seq<char>)
    requires
        id.len() > 0,
    ensures
        note_id_of(note_file_name(id)) == Some(id),
{
    reveal_strlit(".md");
    let name = note_file_name(id);
    assert(name.subrange(id.len() as int, name.len() as int) =~= ".md"@);
}

} // verus!
