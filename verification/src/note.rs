//! The document model: notes, their attachments and their metadata.
//!
//! Each record has a mathematical value (its view) made of character
//! sequences; every contract of the crate is stated over those values.

use vstd::prelude::*;

verus! {

/// The value of an [`Asset`].
pub struct AssetView {
    pub path: Seq<char>,
    pub name: Seq<char>,
    pub mime_type: Seq<char>,
}

/// The value of a [`NoteMetadata`].
pub struct MetadataView {
    pub id: Seq<char>,
    pub title: Seq<char>,
    pub tags: Seq<Seq<char>>,
    pub references: Seq<Seq<char>>,
}

/// The value of a [`Note`].
pub struct NoteView {
    pub id: Seq<char>,
    pub title: Seq<char>,
    pub content: Seq<char>,
    pub tags: Seq<Seq<char>>,
    pub references: Seq<Seq<char>>,
    pub assets: Seq<AssetView>,
}

impl NoteView {
    /// The note without its content and its attachments.
    pub open spec fn metadata(self) -> MetadataView {
        MetadataView {
            id: self.id,
            title: self.title,
            tags: self.tags,
            references: self.references,
        }
    }
}

/// The note that carries `meta`, the rendered `content` and `assets`.
pub open spec fn assembled(
    meta: MetadataView,
    content: Seq<char>,
    assets: Seq<AssetView>,
) -> NoteView {
    NoteView {
        id: meta.id,
        title: meta.title,
        content,
        tags: meta.tags,
        references: meta.references,
        assets,
    }
}

/// A file attached to a note.
#[derive(Debug, PartialEq)]
pub struct Asset {
    /// Filesystem path of the attachment.
    pub path: String,
    /// Display name: the final segment of the path.
    pub name: String,
    /// Content type guessed from the file extension.
    pub mime_type: String,
}

/// A note: its metadata, its rendered HTML body and its attachments.
#[derive(Debug, PartialEq)]
pub struct Note {
    /// Stable identifier, also the stem of the file name.
    pub id: String,
    /// Display title.
    pub title: String,
    /// Rendered HTML; empty for a note without body.
    pub content: String,
    /// Tags, in display order.
    pub tags: Vec<String>,
    /// Ids of the notes this note links to; they need not exist.
    pub references: Vec<String>,
    /// Attachments found on disk when the note was rendered.
    pub assets: Vec<Asset>,
}

/// A note without its content and its attachments.
#[derive(Debug)]
pub struct NoteMetadata {
    pub id: String,
    pub title: String,
    pub tags: Vec<String>,
    pub references: Vec<String>,
}

impl View for Asset {
    type V = AssetView;

    open spec fn view(&self) -> AssetView {
        AssetView { path: self.path@, name: self.name@, mime_type: self.mime_type@ }
    }
}

impl DeepView for Asset {
    type V = AssetView;

    open spec fn deep_view(&self) -> AssetView {
        self@
    }
}

impl View for NoteMetadata {
    type V = MetadataView;

    open spec fn view(&self) -> MetadataView {
        MetadataView {
            id: self.id@,
            title: self.title@,
            tags: self.tags.deep_view(),
            references: self.references.deep_view(),
        }
    }
}

impl DeepView for NoteMetadata {
    type V = MetadataView;

    open spec fn deep_view(&self) -> MetadataView {
        self@
    }
}

impl View for Note {
    type V = NoteView;

    open spec fn view(&self) -> NoteView {
        NoteView {
            id: self.id@,
            title: self.title@,
            content: self.content@,
            tags: self.tags.deep_view(),
            references: self.references.deep_view(),
            assets: self.assets.deep_view(),
        }
    }
}

impl DeepView for Note {
    type V = NoteView;

    open spec fn deep_view(&self) -> NoteView {
        self@
    }
}

/// A copy of a list of strings.
pub fn clone_texts(texts: &Vec<String>) -> (r: Vec<String>)
    ensures
        r.deep_view() == texts.deep_view(),
{
    let mut out: Vec<String> = Vec::new();
    let mut i: usize = 0;
    while i < texts.len()
        invariant
            i <= texts.len(),
            out.len() == i,
            forall|j: int| 0 <= j < i ==> out@[j]@ == texts@[j]@,
        decreases texts.len() - i,
    {
        out.push(texts[i].clone());
        i = i + 1;
    }
    out
}

/// A copy of a list of attachments.
pub fn clone_assets(assets: &Vec<Asset>) -> (r: Vec<Asset>)
    ensures
        r.deep_view() == assets.deep_view(),
{
    let mut out: Vec<Asset> = Vec::new();
    let mut i: usize = 0;
    while i < assets.len()
        invariant
            i <= assets.len(),
            out.len() == i,
            forall|j: int| 0 <= j < i ==> out@[j]@ == assets@[j]@,
        decreases assets.len() - i,
    {
        out.push(assets[i].clone());
        i = i + 1;
    }
    out
}

impl Clone for Asset {
    fn clone(&self) -> (r: Self)
        ensures
            r@ == self@,
    {
        Asset {
            path: self.path.clone(),
            name: self.name.clone(),
            mime_type: self.mime_type.clone(),
        }
    }
}

impl Clone for NoteMetadata {
    fn clone(&self) -> (r: Self)
        ensures
            r@ == self@,
    {
        NoteMetadata {
            id: self.id.clone(),
            title: self.title.clone(),
            tags: clone_texts(&self.tags),
            references: clone_texts(&self.references),
        }
    }
}

impl Clone for Note {
    fn clone(&self) -> (r: Self)
        ensures
            r@ == self@,
    {
        Note {
            id: self.id.clone(),
            title: self.title.clone(),
            content: self.content.clone(),
            tags: clone_texts(&self.tags),
            references: clone_texts(&self.references),
            assets: clone_assets(&self.assets),
        }
    }
}

impl Note {
    /// The note made of `meta`, the rendered `content` and `assets`.
    pub fn assemble(meta: NoteMetadata, content: String, assets: Vec<Asset>) -> (r: Note)
        ensures
            r@ == assembled(meta@, content@, assets.deep_view()),
    {
        Note {
            id: meta.id,
            title: meta.title,
            content,
            tags: meta.tags,
            references: meta.references,
            assets,
        }
    }

    /// The metadata of this note: everything but content and attachments.
    pub fn metadata(&self) -> (r: NoteMetadata)
        ensures
            r@ == self@.metadata(),
    {
        NoteMetadata {
            id: self.id.clone(),
            title: self.title.clone(),
            tags: clone_texts(&self.tags),
            references: clone_texts(&self.references),
        }
    }
}

} // verus!
