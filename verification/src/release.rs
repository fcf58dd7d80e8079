//! Deallocation protocol: one release function per allocation-producing
//! conversion.  Each release consumes its record, walks every nested
//! text buffer and non-empty data block exactly once, and returns how
//! many such allocations the walk visited, so that a release can be
//! audited against what its conversion allocated.

use vstd::prelude::*;
use crate::flat::CArray;
use crate::models::ChapterModel;
use crate::models::ComicModel;
use crate::models::SourceModel;
use crate::models::TagModel;
use crate::structs::Chapter;
use crate::structs::Comic;
use crate::structs::KV;
use crate::structs::Platform;
use crate::structs::Tag;
use crate::structs::chapter_array_matches;
use crate::structs::chapter_matches;
use crate::structs::comic_array_matches;
use crate::structs::comic_matches;
use crate::structs::header_array_matches;
use crate::structs::platform_array_matches;
use crate::structs::platform_matches;
use crate::structs::tag_array_matches;
use crate::text::TextBuf;
use crate::text::free_string;

verus! {

/// Allocations a flat tag owns: its name buffer.
pub open spec fn tag_allocations(t: Tag) -> nat {
    t.name.allocations()
}

/// Allocations a flat tag array owns: its data block plus one text
/// buffer per tag.
pub open spec fn tag_array_allocations(a: CArray<Tag>) -> nat {
    a.block_count() + a.view_seq().len()
}

/// Allocations a flat header pair owns: its two text buffers.
pub open spec fn header_allocations(h: KV<TextBuf, TextBuf>) -> nat {
    h.key.allocations() + h.value.allocations()
}

/// Allocations a flat header array owns.
pub open spec fn header_array_allocations(a: CArray<KV<TextBuf, TextBuf>>) -> nat {
    a.block_count() + 2 * a.view_seq().len()
}

/// Allocations a flat chapter owns: two text buffers and its header
/// array.
pub open spec fn chapter_allocations(c: Chapter) -> nat {
    2 + header_array_allocations(c.page_headers)
}

/// Allocations owned by the first `n` chapters of a run.
pub open spec fn chapters_allocations_upto(s: Seq<Chapter>, n: int) -> nat
    decreases n,
{
    if n <= 0 {
        0
    } else {
        chapters_allocations_upto(s, n - 1) + chapter_allocations(s[n - 1])
    }
}

/// Allocations a flat chapter array owns.
pub open spec fn chapter_array_allocations(a: CArray<Chapter>) -> nat {
    a.block_count() + chapters_allocations_upto(a.view_seq(), a.view_seq().len() as int)
}

/// Allocations a flat comic owns: three text buffers and its chapter
/// array.
pub open spec fn comic_allocations(c: Comic) -> nat {
    3 + chapter_array_allocations(c.chapters)
}

/// Allocations owned by the first `n` comics of a run.
pub open spec fn comics_allocations_upto(s: Seq<Comic>, n: int) -> nat
    decreases n,
{
    if n <= 0 {
        0
    } else {
        comics_allocations_upto(s, n - 1) + comic_allocations(s[n - 1])
    }
}

/// Allocations a flat comic array owns.
pub open spec fn comic_array_allocations(a: CArray<Comic>) -> nat {
    a.block_count() + comics_allocations_upto(a.view_seq(), a.view_seq().len() as int)
}

/// Allocations a flat source record owns: three text buffers and its
/// tag array.
pub open spec fn platform_allocations(p: Platform) -> nat {
    3 + tag_array_allocations(p.tags)
}

/// Allocations owned by the first `n` source records of a run.
pub open spec fn platforms_allocations_upto(s: Seq<Platform>, n: int) -> nat
    decreases n,
{
    if n <= 0 {
        0
    } else {
        platforms_allocations_upto(s, n - 1) + platform_allocations(s[n - 1])
    }
}

/// Allocations a flat source array owns.
pub open spec fn platform_array_allocations(a: CArray<Platform>) -> nat {
    a.block_count() + platforms_allocations_upto(a.view_seq(), a.view_seq().len() as int)
}

/// Release a tag array: the data block and every tag's name buffer,
/// each exactly once.
pub fn free_tag_array(a: CArray<Tag>) -> (n: usize)
    requires
        tag_array_allocations(a) <= usize::MAX,
    ensures
        n == tag_array_allocations(a),
{
    match a.into_data() {
        None => 0,
        Some(mut items) => {
            if items.len() == 0 {
                0
            } else {
                let ghost orig = items@;
                let mut count: usize = 1;
                while items.len() > 0
                    invariant
                        items@.len() <= orig.len(),
                        items@ == orig.take(items@.len() as int),
                        count + items@.len() == 1 + orig.len(),
                        1 + orig.len() <= usize::MAX,
                    decreases items@.len(),
                {
                    let t = items.pop().unwrap();
                    proof {
                        assert(items@ =~= orig.take(items@.len() as int));
                    }
                    let released = free_string(t.name);
                    count = count + released;
                }
                count
            }
        },
    }
}

/// Release a header array: the data block and both buffers of every
/// pair, each exactly once.
pub fn free_headers(a: CArray<KV<TextBuf, TextBuf>>) -> (n: usize)
    requires
        header_array_allocations(a) <= usize::MAX,
    ensures
        n == header_array_allocations(a),
{
    match a.into_data() {
        None => 0,
        Some(mut items) => {
            if items.len() == 0 {
                0
            } else {
                let ghost orig = items@;
                let mut count: usize = 1;
                while items.len() > 0
                    invariant
                        items@.len() <= orig.len(),
                        items@ == orig.take(items@.len() as int),
                        count + 2 * items@.len() == 1 + 2 * orig.len(),
                        1 + 2 * orig.len() <= usize::MAX,
                    decreases items@.len(),
                {
                    let kv = items.pop().unwrap();
                    proof {
                        assert(items@ =~= orig.take(items@.len() as int));
                    }
                    let released_key = free_string(kv.key);
                    let released_value = free_string(kv.value);
                    count = count + released_key + released_value;
                }
                count
            }
        },
    }
}

/// Release one chapter's own allocations.
fn free_chapter(c: Chapter) -> (n: usize)
    requires
        chapter_allocations(c) <= usize::MAX,
    ensures
        n == chapter_allocations(c),
{
    let Chapter { title, url, page_headers, .. } = c;
    let released_title = free_string(title);
    let released_url = free_string(url);
    let released_headers = free_headers(page_headers);
    released_title + released_url + released_headers
}

/// Release a chapter array: the data block, then every chapter's
/// buffers and header array, each exactly once.
pub fn free_chapter_array(a: CArray<Chapter>) -> (n: usize)
    requires
        chapter_array_allocations(a) <= usize::MAX,
    ensures
        n == chapter_array_allocations(a),
{
    match a.into_data() {
        None => 0,
        Some(mut items) => {
            if items.len() == 0 {
                0
            } else {
                let ghost orig = items@;
                let mut count: usize = 1;
                while items.len() > 0
                    invariant
                        items@.len() <= orig.len(),
                        items@ == orig.take(items@.len() as int),
                        count + chapters_allocations_upto(orig, items@.len() as int) == 1
                            + chapters_allocations_upto(orig, orig.len() as int),
                        1 + chapters_allocations_upto(orig, orig.len() as int) <= usize::MAX,
                    decreases items@.len(),
                {
                    let ghost k = items@.len() as int;
                    let c = items.pop().unwrap();
                    proof {
                        assert(items@ =~= orig.take(items@.len() as int));
                        assert(c == orig[k - 1]);
                        assert(chapters_allocations_upto(orig, k) == chapters_allocations_upto(
                            orig,
                            k - 1,
                        ) + chapter_allocations(orig[k - 1]));
                    }
                    let released = free_chapter(c);
                    count = count + released;
                }
                count
            }
        },
    }
}

/// Release a comic array: the data block, then every comic's buffers
/// and chapter array, each exactly once.
pub fn free_comic_array(a: CArray<Comic>) -> (n: usize)
    requires
        comic_array_allocations(a) <= usize::MAX,
    ensures
        n == comic_array_allocations(a),
{
    match a.into_data() {
        None => 0,
        Some(mut items) => {
            if items.len() == 0 {
                0
            } else {
                let ghost orig = items@;
                let mut count: usize = 1;
                while items.len() > 0
                    invariant
                        items@.len() <= orig.len(),
                        items@ == orig.take(items@.len() as int),
                        count + comics_allocations_upto(orig, items@.len() as int) == 1
                            + comics_allocations_upto(orig, orig.len() as int),
                        1 + comics_allocations_upto(orig, orig.len() as int) <= usize::MAX,
                    decreases items@.len(),
                {
                    let ghost k = items@.len() as int;
                    let c = items.pop().unwrap();
                    proof {
                        assert(items@ =~= orig.take(items@.len() as int));
                        assert(c == orig[k - 1]);
                        assert(comics_allocations_upto(orig, k) == comics_allocations_upto(
                            orig,
                            k - 1,
                        ) + comic_allocations(orig[k - 1]));
                    }
                    let released = free_comic(c);
                    count = count + released;
                }
                count
            }
        },
    }
}

/// Release one comic: its three text buffers and its chapter array,
/// each allocation exactly once.
pub fn free_comic(c: Comic) -> (n: usize)
    requires
        comic_allocations(c) <= usize::MAX,
    ensures
        n == comic_allocations(c),
{
    let Comic { title, url, cover, chapters } = c;
    let released_title = free_string(title);
    let released_url = free_string(url);
    let released_cover = free_string(cover);
    let released_chapters = free_chapter_array(chapters);
    released_title + released_url + released_cover + released_chapters
}

/// Release one source record's own allocations.
fn free_platform(p: Platform) -> (n: usize)
    requires
        platform_allocations(p) <= usize::MAX,
    ensures
        n == platform_allocations(p),
{
    let Platform { domain, name, favicon, tags, .. } = p;
    let released_domain = free_string(domain);
    let released_name = free_string(name);
    let released_favicon = free_string(favicon);
    let released_tags = free_tag_array(tags);
    released_domain + released_name + released_favicon + released_tags
}

/// Release a source array: the data block, then every record's
/// buffers and tag array, each exactly once.
pub fn free_platform_array(a: CArray<Platform>) -> (n: usize)
    requires
        platform_array_allocations(a) <= usize::MAX,
    ensures
        n == platform_array_allocations(a),
{
    match a.into_data() {
        None => 0,
        Some(mut items) => {
            if items.len() == 0 {
                0
            } else {
                let ghost orig = items@;
                let mut count: usize = 1;
                while items.len() > 0
                    invariant
                        items@.len() <= orig.len(),
                        items@ == orig.take(items@.len() as int),
                        count + platforms_allocations_upto(orig, items@.len() as int) == 1
                            + platforms_allocations_upto(orig, orig.len() as int),
                        1 + platforms_allocations_upto(orig, orig.len() as int) <= usize::MAX,
                    decreases items@.len(),
                {
                    let ghost k = items@.len() as int;
                    let p = items.pop().unwrap();
                    proof {
                        assert(items@ =~= orig.take(items@.len() as int));
                        assert(p == orig[k - 1]);
                        assert(platforms_allocations_upto(orig, k) == platforms_allocations_upto(
                            orig,
                            k - 1,
                        ) + platform_allocations(orig[k - 1]));
                    }
                    let released = free_platform(p);
                    count = count + released;
                }
                count
            }
        },
    }
}

/// Allocations conversion makes for a tag list: one name buffer per
/// tag, plus the data block when the list is non-empty.
pub open spec fn converted_tags_allocations(ms: Seq<TagModel>) -> nat {
    (if ms.len() == 0 {
        0nat
    } else {
        1nat
    }) + ms.len()
}

/// Allocations conversion makes for a header set: two buffers per
/// pair, plus the data block when the set is non-empty.
pub open spec fn converted_headers_allocations(ms: Seq<KV<Vec<u8>, Vec<u8>>>) -> nat {
    (if ms.len() == 0 {
        0nat
    } else {
        1nat
    }) + 2 * ms.len()
}

/// Allocations conversion makes for one chapter.
pub open spec fn converted_chapter_allocations(m: ChapterModel) -> nat {
    2 + converted_headers_allocations(m.page_headers@)
}

pub open spec fn converted_chapters_upto(ms: Seq<ChapterModel>, n: int) -> nat
    decreases n,
{
    if n <= 0 {
        0
    } else {
        converted_chapters_upto(ms, n - 1) + converted_chapter_allocations(ms[n - 1])
    }
}

/// Allocations conversion makes for a chapter list.
pub open spec fn converted_chapter_array_allocations(ms: Seq<ChapterModel>) -> nat {
    (if ms.len() == 0 {
        0nat
    } else {
        1nat
    }) + converted_chapters_upto(ms, ms.len() as int)
}

/// Allocations conversion makes for one comic.
pub open spec fn converted_comic_allocations(m: ComicModel) -> nat {
    3 + converted_chapter_array_allocations(m.chapters@)
}

pub open spec fn converted_comics_upto(ms: Seq<ComicModel>, n: int) -> nat
    decreases n,
{
    if n <= 0 {
        0
    } else {
        converted_comics_upto(ms, n - 1) + converted_comic_allocations(ms[n - 1])
    }
}

/// Allocations conversion makes for a comic list.
pub open spec fn converted_comic_array_allocations(ms: Seq<ComicModel>) -> nat {
    (if ms.len() == 0 {
        0nat
    } else {
        1nat
    }) + converted_comics_upto(ms, ms.len() as int)
}

/// Allocations conversion makes for one source record.
pub open spec fn converted_platform_allocations(m: SourceModel) -> nat {
    3 + converted_tags_allocations(m.tags@)
}

pub open spec fn converted_platforms_upto(ms: Seq<SourceModel>, n: int) -> nat
    decreases n,
{
    if n <= 0 {
        0
    } else {
        converted_platforms_upto(ms, n - 1) + converted_platform_allocations(ms[n - 1])
    }
}

/// Allocations conversion makes for a source list.
pub open spec fn converted_platform_array_allocations(ms: Seq<SourceModel>) -> nat {
    (if ms.len() == 0 {
        0nat
    } else {
        1nat
    }) + converted_platforms_upto(ms, ms.len() as int)
}

/// Releasing a converted tag list leaks nothing: the count the
/// release walk returns equals exactly what the conversion allocated.
pub proof fn lemma_release_matches_convert_tags(a: CArray<Tag>, ms: Seq<TagModel>)
    requires
        tag_array_matches(a, ms),
    ensures
        tag_array_allocations(a) == converted_tags_allocations(ms),
{
}

/// Releasing a converted header set leaks nothing.
pub proof fn lemma_release_matches_convert_headers(
    a: CArray<KV<TextBuf, TextBuf>>,
    ms: Seq<KV<Vec<u8>, Vec<u8>>>,
)
    requires
        header_array_matches(a, ms),
    ensures
        header_array_allocations(a) == converted_headers_allocations(ms),
{
}

proof fn lemma_chapters_upto_matches(s: Seq<Chapter>, ms: Seq<ChapterModel>, n: int)
    requires
        s.len() == ms.len(),
        forall|i: int| 0 <= i < ms.len() ==> chapter_matches(#[trigger] s[i], ms[i]),
        0 <= n <= ms.len(),
    ensures
        chapters_allocations_upto(s, n) == converted_chapters_upto(ms, n),
    decreases n,
{
    if n > 0 {
        lemma_chapters_upto_matches(s, ms, n - 1);
        assert(chapter_matches(s[n - 1], ms[n - 1]));
    }
}

/// Releasing a converted chapter list leaks nothing: every nested
/// text buffer and header array the conversion allocated is visited
/// exactly once.
pub proof fn lemma_release_matches_convert_chapters(a: CArray<Chapter>, ms: Seq<ChapterModel>)
    requires
        chapter_array_matches(a, ms),
    ensures
        chapter_array_allocations(a) == converted_chapter_array_allocations(ms),
{
    lemma_chapters_upto_matches(a.view_seq(), ms, ms.len() as int);
}

proof fn lemma_comics_upto_matches(s: Seq<Comic>, ms: Seq<ComicModel>, n: int)
    requires
        s.len() == ms.len(),
        forall|i: int| 0 <= i < ms.len() ==> comic_matches(#[trigger] s[i], ms[i]),
        0 <= n <= ms.len(),
    ensures
        comics_allocations_upto(s, n) == converted_comics_upto(ms, n),
    decreases n,
{
    if n > 0 {
        lemma_comics_upto_matches(s, ms, n - 1);
        assert(comic_matches(s[n - 1], ms[n - 1]));
        lemma_release_matches_convert_chapters(s[n - 1].chapters, ms[n - 1].chapters@);
    }
}

/// Releasing a converted comic list leaks nothing, chapter lists and
/// header sets included.
pub proof fn lemma_release_matches_convert_comics(a: CArray<Comic>, ms: Seq<ComicModel>)
    requires
        comic_array_matches(a, ms),
    ensures
        comic_array_allocations(a) == converted_comic_array_allocations(ms),
{
    lemma_comics_upto_matches(a.view_seq(), ms, ms.len() as int);
}

proof fn lemma_platforms_upto_matches(s: Seq<Platform>, ms: Seq<SourceModel>, n: int)
    requires
        s.len() == ms.len(),
        forall|i: int| 0 <= i < ms.len() ==> platform_matches(#[trigger] s[i], ms[i]),
        0 <= n <= ms.len(),
    ensures
        platforms_allocations_upto(s, n) == converted_platforms_upto(ms, n),
    decreases n,
{
    if n > 0 {
        lemma_platforms_upto_matches(s, ms, n - 1);
        assert(platform_matches(s[n - 1], ms[n - 1]));
        lemma_release_matches_convert_tags(s[n - 1].tags, ms[n - 1].tags@);
    }
}

/// Releasing a converted source list leaks nothing, tag lists
/// included.
pub proof fn lemma_release_matches_convert_platforms(a: CArray<Platform>, ms: Seq<SourceModel>)
    requires
        platform_array_matches(a, ms),
    ensures
        platform_array_allocations(a) == converted_platform_array_allocations(ms),
{
    lemma_platforms_upto_matches(a.view_seq(), ms, ms.len() as int);
}

} // verus!
