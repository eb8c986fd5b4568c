//! Front matter: the metadata block at the head of a note file.
//!
//! `gray_matter` cuts the block off the body and parses it as YAML. What it
//! found is copied into a [`MetaValue`], and the rule that says which blocks
//! describe a note is applied to that value.

use crate::note::{MetadataView, NoteMetadata};
use gray_matter::engine::YAML;
use gray_matter::{Matter, Pod};
use vstd::prelude::*;

verus! {

#[verifier::external_type_specification]
#[verifier::external_body]
pub struct ExPod(Pod);

/// A parsed metadata value as a mathematical tree. A table is a map: the
/// order of its entries means nothing.
pub enum MetaTree {
    Null,
    Text(Seq<char>),
    Integer(int),
    Real,
    Flag(bool),
    List(Seq<MetaTree>),
    Table(Map<Seq<char>, MetaTree>),
}

/// A parsed metadata value. A real number is kept without its digits: no
/// rule reads them.
#[derive(Debug)]
pub enum MetaValue {
    Null,
    Text(String),
    Integer(i64),
    Real,
    Flag(bool),
    List(Vec<MetaValue>),
    /// The entries of a table, in no particular order; of two entries with
    /// one key the first counts.
    Table(Vec<(String, MetaValue)>),
}

/// The index of the first of `entries` whose key is `key`, or their number
/// where there is none.
pub open spec fn first_entry(entries: Seq<(String, MetaValue)>, key: Seq<char>) -> int
    decreases entries.len(),
{
    if entries.len() == 0 {
        0
    } else if entries[0].0@ == key {
        0
    } else {
        1 + first_entry(entries.skip(1), key)
    }
}

/// The list that `items` stand for.
pub open spec fn list_of(items: Seq<MetaValue>) -> Seq<MetaTree>
    decreases items,
{
    Seq::new(
        items.len(),
        |i: int|
            if 0 <= i < items.len() {
                items[i].view()
            } else {
                MetaTree::Null
            },
    )
}

/// The table that `entries` stand for: each key with the value of the first
/// entry that has it.
pub open spec fn table_of(entries: Seq<(String, MetaValue)>) -> Map<Seq<char>, MetaTree>
    decreases entries,
{
    Map::new(
        |key: Seq<char>| first_entry(entries, key) < entries.len(),
        |key: Seq<char>|
            {
                let i = first_entry(entries, key);
                if 0 <= i < entries.len() {
                    entries[i].1.view()
                } else {
                    MetaTree::Null
                }
            },
    )
}

impl View for MetaValue {
    type V = MetaTree;

    open spec fn view(&self) -> MetaTree
        decreases self,
    {
        match self {
            MetaValue::Null => MetaTree::Null,
            MetaValue::Text(text) => MetaTree::Text(text@),
            MetaValue::Integer(number) => MetaTree::Integer(*number as int),
            MetaValue::Real => MetaTree::Real,
            MetaValue::Flag(flag) => MetaTree::Flag(*flag),
            MetaValue::List(items) => MetaTree::List(list_of(items@)),
            MetaValue::Table(entries) => MetaTree::Table(table_of(entries@)),
        }
    }
}

impl DeepView for MetaValue {
    type V = MetaTree;

    open spec fn deep_view(&self) -> MetaTree {
        self@
    }
}

/// A note file cut in two, as a mathematical value.
pub struct FrontMatterView {
    pub data: Option<MetaTree>,
    pub body: Seq<char>,
}

/// A note file cut in two: the parsed metadata block, if the file has one,
/// and the body that follows it.
#[derive(Debug)]
pub struct FrontMatter {
    pub data: Option<MetaValue>,
    pub body: String,
}

impl View for FrontMatter {
    type V = FrontMatterView;

    open spec fn view(&self) -> FrontMatterView {
        FrontMatterView { data: self.data.deep_view(), body: self.body@ }
    }
}

/// What `gray_matter` makes of a file's text with its YAML engine and the
/// delimiter `---`: the data of the metadata block and the content after it.
pub uninterp spec fn front_matter(text: Seq<char>) -> FrontMatterView;

/// Copies a `Pod` of `gray_matter` variant by variant. Trusted; only
/// [`split_front_matter`] calls it, and nothing is claimed of it alone.
#[verifier::external_body]
fn from_pod(pod: &Pod) -> MetaValue {
    match pod {
        Pod::Null => MetaValue::Null,
        Pod::String(text) => MetaValue::Text(text.clone()),
        Pod::Integer(number) => MetaValue::Integer(*number),
        Pod::Float(_) => MetaValue::Real,
        Pod::Boolean(flag) => MetaValue::Flag(*flag),
        Pod::Array(items) => MetaValue::List(items.iter().map(from_pod).collect()),
        Pod::Hash(table) => MetaValue::Table(
            table.iter().map(|(key, value)| (key.clone(), from_pod(value))).collect(),
        ),
    }
}

/// `Matter::<YAML>::new().parse(text)`: its `data` copied by [`from_pod`],
/// and its `content`. Trusted: the result is what [`front_matter`] names. A
/// table of `gray_matter` is a hash map, so no key occurs twice in it and
/// the value of the copy does not depend on the order of the entries.
#[verifier::external_body]
pub(crate) fn split_front_matter(text: &str) -> (r: FrontMatter)
    ensures
        r@ == front_matter(text@),
{
    let parsed = Matter::<YAML>::new().parse(text);
    FrontMatter { data: parsed.data.as_ref().map(from_pod), body: parsed.content }
}

/// The text under `key`, where the table holds a text there.
pub open spec fn text_at(table: Map<Seq<char>, MetaTree>, key: Seq<char>) -> Option<Seq<char>> {
    if table.contains_key(key) {
        match table[key] {
            MetaTree::Text(text) => Some(text),
            _ => None,
        }
    } else {
        None
    }
}

/// The texts of a list all of whose items are texts.
pub open spec fn texts_of(tree: MetaTree) -> Option<Seq<Seq<char>>> {
    match tree {
        MetaTree::List(items) => if forall|i: int|
            0 <= i < items.len() ==> (#[trigger] items[i]) is Text {
            Some(Seq::new(items.len(), |i: int| items[i]->Text_0))
        } else {
            None
        },
        _ => None,
    }
}

/// The texts under `key`: none where the key is absent, the list's texts
/// where it holds a list of texts.
pub open spec fn texts_at(table: Map<Seq<char>, MetaTree>, key: Seq<char>) -> Option<
    Seq<Seq<char>>,
> {
    if table.contains_key(key) {
        texts_of(table[key])
    } else {
        Some(Seq::empty())
    }
}

/// Whether `tree` has the shape of an attachment: a table with the texts
/// `path`, `name` and `mime_type`.
pub open spec fn describes_asset(tree: MetaTree) -> bool {
    match tree {
        MetaTree::Table(table) => text_at(table, "path"@).is_some() && text_at(
            table,
            "name"@,
        ).is_some() && text_at(table, "mime_type"@).is_some(),
        _ => false,
    }
}

/// Whether `tree` is a list of attachments.
pub open spec fn describes_assets(tree: MetaTree) -> bool {
    match tree {
        MetaTree::List(items) => forall|i: int|
            0 <= i < items.len() ==> describes_asset(#[trigger] items[i]),
        _ => false,
    }
}

/// Whether the optional fields that a note's metadata does not keep have the
/// shape of a note all the same: `content` a text, `assets` a list of
/// attachments.
pub open spec fn unused_fields_fit(table: Map<Seq<char>, MetaTree>) -> bool {
    &&& table.contains_key("content"@) ==> table["content"@] is Text
    &&& table.contains_key("assets"@) ==> describes_assets(table["assets"@])
}

/// The metadata that a parsed block describes. It must be a table with the
/// texts `id` and `title`; `tags` and `references` are lists of texts and
/// empty where absent; `content` and `assets`, where present, must fit a
/// note; other keys are ignored.
pub open spec fn metadata_of(tree: MetaTree) -> Option<MetadataView> {
    match tree {
        MetaTree::Table(table) => {
            let id = text_at(table, "id"@);
            let title = text_at(table, "title"@);
            let tags = texts_at(table, "tags"@);
            let references = texts_at(table, "references"@);
            if id.is_some() && title.is_some() && tags.is_some() && references.is_some()
                && unused_fields_fit(table) {
                Some(
                    MetadataView {
                        id: id.unwrap(),
                        title: title.unwrap(),
                        tags: tags.unwrap(),
                        references: references.unwrap(),
                    },
                )
            } else {
                None
            }
        },
        _ => None,
    }
}

/// Where the first `i` entries do not have `key`, the search goes on behind
/// them.
proof fn lemma_first_entry_from(entries: Seq<(String, MetaValue)>, key: Seq<char>, i: int)
    requires
        0 <= i <= entries.len(),
        forall|j: int| 0 <= j < i ==> entries[j].0@ != key,
    ensures
        first_entry(entries, key) == i + first_entry(entries.skip(i), key),
    decreases i,
{
    if i == 0 {
        assert(entries.skip(0) =~= entries);
    } else {
        let rest = entries.skip(1);
        lemma_first_entry_from(rest, key, i - 1);
        assert(rest.skip(i - 1) =~= entries.skip(i));
    }
}

/// The value of the first entry with `key`.
pub fn lookup<'a>(entries: &'a Vec<(String, MetaValue)>, key: &str) -> (r: Option<&'a MetaValue>)
    ensures
        r.is_some() == table_of(entries@).contains_key(key@),
        r matches Some(value) ==> value@ == table_of(entries@)[key@],
{
    let wanted = key.to_owned();
    let mut i: usize = 0;
    while i < entries.len()
        invariant
            i <= entries.len(),
            wanted@ == key@,
            forall|j: int| 0 <= j < i ==> entries@[j].0@ != key@,
        decreases entries.len() - i,
    {
        if entries[i].0 == wanted {
            proof {
                lemma_first_entry_from(entries@, key@, i as int);
            }
            return Some(&entries[i].1);
        }
        i = i + 1;
    }
    proof {
        lemma_first_entry_from(entries@, key@, i as int);
    }
    None
}

/// The text under `key`, where the table holds a text there.
pub fn text_field(entries: &Vec<(String, MetaValue)>, key: &str) -> (r: Option<String>)
    ensures
        r.deep_view() == text_at(table_of(entries@), key@),
{
    match lookup(entries, key) {
        Some(MetaValue::Text(text)) => Some(text.clone()),
        _ => None,
    }
}

/// The texts of a list all of whose items are texts.
pub fn text_items(value: &MetaValue) -> (r: Option<Vec<String>>)
    ensures
        r.deep_view() == texts_of(value@),
{
    match value {
        MetaValue::List(items) => {
            let mut texts: Vec<String> = Vec::new();
            let mut i: usize = 0;
            while i < items.len()
                invariant
                    i <= items.len(),
                    texts.len() == i,
                    value@ == MetaTree::List(list_of(items@)),
                    forall|j: int| 0 <= j < i ==> (#[trigger] list_of(items@)[j]) is Text,
                    forall|j: int| 0 <= j < i ==> texts@[j]@ == list_of(items@)[j]->Text_0,
                decreases items.len() - i,
            {
                match &items[i] {
                    MetaValue::Text(text) => {
                        texts.push(text.clone());
                    },
                    _ => {
                        assert(!(list_of(items@)[i as int] is Text));
                        return None;
                    },
                }
                i = i + 1;
            }
            Some(texts)
        },
        _ => None,
    }
}

/// The texts under `key`: none where the key is absent.
pub fn texts_field(entries: &Vec<(String, MetaValue)>, key: &str) -> (r: Option<Vec<String>>)
    ensures
        r.deep_view() == texts_at(table_of(entries@), key@),
{
    match lookup(entries, key) {
        Some(value) => text_items(value),
        None => {
            let none: Vec<String> = Vec::new();
            Some(none)
        },
    }
}

/// Whether `value` has the shape of an attachment.
pub fn is_asset(value: &MetaValue) -> (r: bool)
    ensures
        r == describes_asset(value@),
{
    match value {
        MetaValue::Table(entries) => text_field(entries, "path").is_some() && text_field(
            entries,
            "name",
        ).is_some() && text_field(entries, "mime_type").is_some(),
        _ => false,
    }
}

/// Whether `value` is a list of attachments.
pub fn is_asset_list(value: &MetaValue) -> (r: bool)
    ensures
        r == describes_assets(value@),
{
    match value {
        MetaValue::List(items) => {
            let mut i: usize = 0;
            while i < items.len()
                invariant
                    i <= items.len(),
                    value@ == MetaTree::List(list_of(items@)),
                    forall|j: int| 0 <= j < i ==> describes_asset(#[trigger] list_of(items@)[j]),
                decreases items.len() - i,
            {
                if !is_asset(&items[i]) {
                    assert(!describes_asset(value@->List_0[i as int]));
                    return false;
                }
                i = i + 1;
            }
            true
        },
        _ => false,
    }
}

/// Whether `content` and `assets`, where present, fit a note.
pub fn check_unused_fields(entries: &Vec<(String, MetaValue)>) -> (r: bool)
    ensures
        r == unused_fields_fit(table_of(entries@)),
{
    let content_fits = match lookup(entries, "content") {
        Some(MetaValue::Text(_)) => true,
        Some(_) => false,
        None => true,
    };
    let assets_fit = match lookup(entries, "assets") {
        Some(value) => is_asset_list(value),
        None => true,
    };
    content_fits && assets_fit
}

/// Reads a note's metadata out of a parsed block; `None` where the block
/// does not describe a note.
pub fn extract_metadata(value: &MetaValue) -> (r: Option<NoteMetadata>)
    ensures
        r.deep_view() == metadata_of(value@),
{
    match value {
        MetaValue::Table(entries) => {
            let id = text_field(entries, "id");
            let title = text_field(entries, "title");
            let tags = texts_field(entries, "tags");
            let references = texts_field(entries, "references");
            let fits = check_unused_fields(entries);
            match (id, title, tags, references) {
                (Some(id), Some(title), Some(tags), Some(references)) => {
                    if fits {
                        Some(NoteMetadata { id, title, tags, references })
                    } else {
                        None
                    }
                },
                _ => None,
            }
        },
        _ => None,
    }
}

} // verus!
