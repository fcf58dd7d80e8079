//! Flat-layout mirrors of the engine's records, and the per-record
//! converters that produce them.  Every mirror exists only to cross
//! the boundary: each text field is an independently owned
//! null-terminated buffer, and each nested collection is a flat
//! `{length, data}` array.  Conversion of a well-formed engine record
//! cannot fail.

use vstd::prelude::*;
use crate::flat::CArray;
use crate::models::ChapterModel;
use crate::models::ComicModel;
use crate::models::SourceModel;
use crate::models::TagModel;
use crate::models::chapter_model_wf;
use crate::models::comic_model_wf;
use crate::models::header_model_wf;
use crate::models::source_model_wf;
use crate::models::tag_model_wf;
use crate::text::TextBuf;
use crate::text::marshal_text;

verus! {

/// One key/value pair.
#[derive(Debug)]
pub struct KV<K, V> {
    pub key: K,
    pub value: V,
}

/// Flat mirror of one tag.
#[derive(Debug)]
pub struct Tag {
    pub value: i32,
    pub name: TextBuf,
}

/// Flat mirror of one source, flags and tags snapshotted at
/// conversion time.
#[derive(Debug)]
pub struct Platform {
    pub domain: TextBuf,
    pub name: TextBuf,
    pub favicon: TextBuf,
    pub is_usable: bool,
    pub is_searchable: bool,
    pub is_pageable: bool,
    pub is_https: bool,
    pub is_search_pageable: bool,
    pub tags: CArray<Tag>,
}

/// Flat mirror of one chapter.
#[derive(Debug)]
pub struct Chapter {
    pub title: TextBuf,
    pub url: TextBuf,
    pub which: u32,
    pub page_headers: CArray<KV<TextBuf, TextBuf>>,
}

/// Flat mirror of one comic.  An unfetched chapter list crosses as an
/// explicit empty array, keeping the release path uniform.
#[derive(Debug)]
pub struct Comic {
    pub title: TextBuf,
    pub url: TextBuf,
    pub cover: TextBuf,
    pub chapters: CArray<Chapter>,
}

/// The flat tag carries the model's value and its name's text.
pub open spec fn tag_matches(t: Tag, m: TagModel) -> bool {
    &&& t.value == m.value
    &&& t.name.wf()
    &&& t.name.content() == m.name@
}

/// The flat header pair carries both texts of the model's pair.
pub open spec fn header_matches(h: KV<TextBuf, TextBuf>, m: KV<Vec<u8>, Vec<u8>>) -> bool {
    &&& h.key.wf()
    &&& h.key.content() == m.key@
    &&& h.value.wf()
    &&& h.value.content() == m.value@
}

/// The flat tag array carries one matching record per model tag.
pub open spec fn tag_array_matches(a: CArray<Tag>, ms: Seq<TagModel>) -> bool {
    &&& a.wf()
    &&& a.view_seq().len() == ms.len()
    &&& forall|i: int| 0 <= i < ms.len() ==> tag_matches(#[trigger] a.view_seq()[i], ms[i])
}

/// The flat header array carries one matching pair per model pair.
pub open spec fn header_array_matches(
    a: CArray<KV<TextBuf, TextBuf>>,
    ms: Seq<KV<Vec<u8>, Vec<u8>>>,
) -> bool {
    &&& a.wf()
    &&& a.view_seq().len() == ms.len()
    &&& forall|i: int| 0 <= i < ms.len() ==> header_matches(#[trigger] a.view_seq()[i], ms[i])
}

/// The flat chapter carries the model's texts, ordinal, and headers.
pub open spec fn chapter_matches(c: Chapter, m: ChapterModel) -> bool {
    &&& c.title.wf()
    &&& c.title.content() == m.title@
    &&& c.url.wf()
    &&& c.url.content() == m.url@
    &&& c.which == m.which
    &&& header_array_matches(c.page_headers, m.page_headers@)
}

pub open spec fn chapter_array_matches(a: CArray<Chapter>, ms: Seq<ChapterModel>) -> bool {
    &&& a.wf()
    &&& a.view_seq().len() == ms.len()
    &&& forall|i: int| 0 <= i < ms.len() ==> chapter_matches(#[trigger] a.view_seq()[i], ms[i])
}

/// The flat comic carries the model's texts and its chapter list.
pub open spec fn comic_matches(c: Comic, m: ComicModel) -> bool {
    &&& c.title.wf()
    &&& c.title.content() == m.title@
    &&& c.url.wf()
    &&& c.url.content() == m.url@
    &&& c.cover.wf()
    &&& c.cover.content() == m.cover@
    &&& chapter_array_matches(c.chapters, m.chapters@)
}

pub open spec fn comic_array_matches(a: CArray<Comic>, ms: Seq<ComicModel>) -> bool {
    &&& a.wf()
    &&& a.view_seq().len() == ms.len()
    &&& forall|i: int| 0 <= i < ms.len() ==> comic_matches(#[trigger] a.view_seq()[i], ms[i])
}

/// The flat source carries the model's texts, its five capability
/// flags, and its tag list.
pub open spec fn platform_matches(p: Platform, m: SourceModel) -> bool {
    &&& p.domain.wf()
    &&& p.domain.content() == m.domain@
    &&& p.name.wf()
    &&& p.name.content() == m.name@
    &&& p.favicon.wf()
    &&& p.favicon.content() == m.favicon@
    &&& p.is_usable == m.is_usable
    &&& p.is_searchable == m.is_searchable
    &&& p.is_pageable == m.is_pageable
    &&& p.is_https == m.is_https
    &&& p.is_search_pageable == m.is_search_pageable
    &&& tag_array_matches(p.tags, m.tags@)
}

pub open spec fn platform_array_matches(a: CArray<Platform>, ms: Seq<SourceModel>) -> bool {
    &&& a.wf()
    &&& a.view_seq().len() == ms.len()
    &&& forall|i: int| 0 <= i < ms.len() ==> platform_matches(#[trigger] a.view_seq()[i], ms[i])
}

impl Tag {
    /// Convert one tag.
    pub fn from_model(m: &TagModel) -> (t: Tag)
        requires
            tag_model_wf(*m),
        ensures
            tag_matches(t, *m),
    {
        Tag { value: m.value, name: marshal_text(&m.name) }
    }
}

/// Convert a tag list into its flat array.
pub fn create_tags_ptr(tags: &Vec<TagModel>) -> (a: CArray<Tag>)
    requires
        forall|i: int| 0 <= i < tags@.len() ==> tag_model_wf(#[trigger] tags@[i]),
    ensures
        tag_array_matches(a, tags@),
        a.has_block(),
{
    let mut items: Vec<Tag> = Vec::new();
    let n = tags.len();
    let mut i: usize = 0;
    while i < n
        invariant
            n == tags@.len(),
            i <= n,
            items@.len() == i,
            forall|j: int| 0 <= j < tags@.len() ==> tag_model_wf(#[trigger] tags@[j]),
            forall|j: int| 0 <= j < i ==> tag_matches(#[trigger] items@[j], tags@[j]),
        decreases n - i,
    {
        items.push(Tag::from_model(&tags[i]));
        i = i + 1;
    }
    CArray::from_vec(items)
}

/// Convert a transport-header set into its flat array.  Duplicate
/// keys pass through unchanged; this layer does not police them.
pub fn create_headers_ptr(headers: &Vec<KV<Vec<u8>, Vec<u8>>>) -> (a: CArray<KV<TextBuf, TextBuf>>)
    requires
        forall|i: int| 0 <= i < headers@.len() ==> header_model_wf(#[trigger] headers@[i]),
    ensures
        header_array_matches(a, headers@),
        a.has_block(),
{
    let mut items: Vec<KV<TextBuf, TextBuf>> = Vec::new();
    let n = headers.len();
    let mut i: usize = 0;
    while i < n
        invariant
            n == headers@.len(),
            i <= n,
            items@.len() == i,
            forall|j: int| 0 <= j < headers@.len() ==> header_model_wf(#[trigger] headers@[j]),
            forall|j: int| 0 <= j < i ==> header_matches(#[trigger] items@[j], headers@[j]),
        decreases n - i,
    {
        let h = &headers[i];
        items.push(KV { key: marshal_text(&h.key), value: marshal_text(&h.value) });
        i = i + 1;
    }
    CArray::from_vec(items)
}

impl Chapter {
    /// Convert one chapter, headers included.
    pub fn from_model(m: &ChapterModel) -> (c: Chapter)
        requires
            chapter_model_wf(*m),
        ensures
            chapter_matches(c, *m),
    {
        Chapter {
            title: marshal_text(&m.title),
            url: marshal_text(&m.url),
            which: m.which,
            page_headers: create_headers_ptr(&m.page_headers),
        }
    }
}

/// Convert a chapter list into its flat array.
pub fn chapter_array_from_models(chapters: &Vec<ChapterModel>) -> (a: CArray<Chapter>)
    requires
        forall|i: int| 0 <= i < chapters@.len() ==> chapter_model_wf(#[trigger] chapters@[i]),
    ensures
        chapter_array_matches(a, chapters@),
        a.has_block(),
{
    let mut items: Vec<Chapter> = Vec::new();
    let n = chapters.len();
    let mut i: usize = 0;
    while i < n
        invariant
            n == chapters@.len(),
            i <= n,
            items@.len() == i,
            forall|j: int| 0 <= j < chapters@.len() ==> chapter_model_wf(#[trigger] chapters@[j]),
            forall|j: int| 0 <= j < i ==> chapter_matches(#[trigger] items@[j], chapters@[j]),
        decreases n - i,
    {
        items.push(Chapter::from_model(&chapters[i]));
        i = i + 1;
    }
    CArray::from_vec(items)
}

impl Comic {
    /// Convert one comic, its chapter list included.
    pub fn from_model(m: &ComicModel) -> (c: Comic)
        requires
            comic_model_wf(*m),
        ensures
            comic_matches(c, *m),
    {
        Comic {
            title: marshal_text(&m.title),
            url: marshal_text(&m.url),
            cover: marshal_text(&m.cover),
            chapters: chapter_array_from_models(&m.chapters),
        }
    }
}

/// Convert a comic list into its flat array.
pub fn comic_array_from_models(comics: &Vec<ComicModel>) -> (a: CArray<Comic>)
    requires
        forall|i: int| 0 <= i < comics@.len() ==> comic_model_wf(#[trigger] comics@[i]),
    ensures
        comic_array_matches(a, comics@),
        a.has_block(),
{
    let mut items: Vec<Comic> = Vec::new();
    let n = comics.len();
    let mut i: usize = 0;
    while i < n
        invariant
            n == comics@.len(),
            i <= n,
            items@.len() == i,
            forall|j: int| 0 <= j < comics@.len() ==> comic_model_wf(#[trigger] comics@[j]),
            forall|j: int| 0 <= j < i ==> comic_matches(#[trigger] items@[j], comics@[j]),
        decreases n - i,
    {
        items.push(Comic::from_model(&comics[i]));
        i = i + 1;
    }
    CArray::from_vec(items)
}

impl Platform {
    /// Convert one source, its capability flags and tags snapshotted
    /// into the flat record.
    pub fn from_model(m: &SourceModel) -> (p: Platform)
        requires
            source_model_wf(*m),
        ensures
            platform_matches(p, *m),
    {
        Platform {
            domain: marshal_text(&m.domain),
            name: marshal_text(&m.name),
            favicon: marshal_text(&m.favicon),
            is_usable: m.is_usable,
            is_searchable: m.is_searchable,
            is_pageable: m.is_pageable,
            is_https: m.is_https,
            is_search_pageable: m.is_search_pageable,
            tags: create_tags_ptr(&m.tags),
        }
    }
}

/// Convert a source list into its flat array.
pub fn platform_array_from_models(sources: &Vec<SourceModel>) -> (a: CArray<Platform>)
    requires
        forall|i: int| 0 <= i < sources@.len() ==> source_model_wf(#[trigger] sources@[i]),
    ensures
        platform_array_matches(a, sources@),
        a.has_block(),
{
    let mut items: Vec<Platform> = Vec::new();
    let n = sources.len();
    let mut i: usize = 0;
    while i < n
        invariant
            n == sources@.len(),
            i <= n,
            items@.len() == i,
            forall|j: int| 0 <= j < sources@.len() ==> source_model_wf(#[trigger] sources@[j]),
            forall|j: int| 0 <= j < i ==> platform_matches(#[trigger] items@[j], sources@[j]),
        decreases n - i,
    {
        items.push(Platform::from_model(&sources[i]));
        i = i + 1;
    }
    CArray::from_vec(items)
}

} // verus!
