//! Engine-side records, mirrored as plain owned values.  The
//! extraction engine itself is an external collaborator; this layer
//! receives its output in these shapes and marshals it across the
//! boundary.  Text is owned bytes; well-formed engine text never
//! embeds a premature terminator.

use vstd::prelude::*;
use crate::structs::KV;
use crate::text::text_wf;

verus! {

/// One tag of the engine's taxonomy: a stable integer value as the
/// canonical identity, and a derived display name.
pub struct TagModel {
    pub value: i32,
    pub name: Vec<u8>,
}

/// One content source, keyed by its domain, with its capability flags
/// and tags as snapshotted at enumeration time.
pub struct SourceModel {
    pub domain: Vec<u8>,
    pub name: Vec<u8>,
    pub favicon: Vec<u8>,
    pub is_usable: bool,
    pub is_searchable: bool,
    pub is_pageable: bool,
    pub is_https: bool,
    pub is_search_pageable: bool,
    pub tags: Vec<TagModel>,
}

/// One chapter of a comic, with the transport headers later needed to
/// resolve its pages.
pub struct ChapterModel {
    pub title: Vec<u8>,
    pub url: Vec<u8>,
    pub which: u32,
    pub page_headers: Vec<KV<Vec<u8>, Vec<u8>>>,
}

/// One comic.  The chapter list is empty until a chapter fetch has
/// filled it; absence is an explicit empty list, never a marker.
pub struct ComicModel {
    pub title: Vec<u8>,
    pub url: Vec<u8>,
    pub cover: Vec<u8>,
    pub chapters: Vec<ChapterModel>,
}

pub open spec fn tag_model_wf(m: TagModel) -> bool {
    text_wf(m.name@)
}

pub open spec fn header_model_wf(m: KV<Vec<u8>, Vec<u8>>) -> bool {
    &&& text_wf(m.key@)
    &&& text_wf(m.value@)
}

pub open spec fn chapter_model_wf(m: ChapterModel) -> bool {
    &&& text_wf(m.title@)
    &&& text_wf(m.url@)
    &&& forall|i: int|
        0 <= i < m.page_headers@.len() ==> header_model_wf(#[trigger] m.page_headers@[i])
}

pub open spec fn comic_model_wf(m: ComicModel) -> bool {
    &&& text_wf(m.title@)
    &&& text_wf(m.url@)
    &&& text_wf(m.cover@)
    &&& forall|i: int| 0 <= i < m.chapters@.len() ==> chapter_model_wf(#[trigger] m.chapters@[i])
}

pub open spec fn source_model_wf(m: SourceModel) -> bool {
    &&& text_wf(m.domain@)
    &&& text_wf(m.name@)
    &&& text_wf(m.favicon@)
    &&& forall|i: int| 0 <= i < m.tags@.len() ==> tag_model_wf(#[trigger] m.tags@[i])
}

} // verus!
