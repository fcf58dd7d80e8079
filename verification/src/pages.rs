//! The page cursor: a sequential, stateful, single-pass producer of
//! resolved page addresses for one chapter.  The cursor embeds a
//! snapshot of the total page count, the chapter's title and its
//! transport headers, taken at creation time, plus the advance state.
//! Advancing past the end is a terminal, non-fatal condition.

use vstd::prelude::*;
use crate::error::BoundaryError;
use crate::error::ErrorChannel;
use crate::flat::CArray;
use crate::models::ChapterModel;
use crate::models::header_model_wf;
use crate::release::free_headers;
use crate::release::header_array_allocations;
use crate::structs::KV;
use crate::structs::create_headers_ptr;
use crate::structs::header_array_matches;
use crate::text::TextBuf;
use crate::text::free_string;
use crate::text::copy_bytes;
use crate::text::marshal_text;
use crate::text::text_wf;

verus! {

/// What the engine reports when it opens a page iterator: the page
/// count, and a snapshot of the chapter's title and headers.
pub struct PageIterModel {
    pub total: i32,
    pub title: Vec<u8>,
    pub headers: Vec<KV<Vec<u8>, Vec<u8>>>,
}

pub open spec fn page_iter_model_wf(m: PageIterModel) -> bool {
    &&& text_wf(m.title@)
    &&& forall|i: int|
        0 <= i < m.headers@.len() ==> header_model_wf(#[trigger] m.headers@[i])
}

/// One advance's engine event: the engine resolved the next page's
/// address, or failed trying.
pub enum PageEvent {
    Resolved(Vec<u8>),
    Failed(Vec<u8>),
}

/// The page cursor handed to the caller: the snapshot it may read,
/// and the advance state.  Only `next_page` moves `served`; a caller
/// treats the cursor as opaque and never writes it.
#[derive(Debug)]
pub struct CreatedPageIter {
    pub count: i32,
    pub title: TextBuf,
    pub headers: CArray<KV<TextBuf, TextBuf>>,
    pub served: i32,
}

/// The advance state after one step: past the end it is absorbing,
/// otherwise one more page has been served.
pub open spec fn served_step(count: int, served: int) -> int {
    if served >= count {
        served
    } else {
        served + 1
    }
}

/// The advance state after `k` advances of a fresh cursor.
pub open spec fn served_after(count: int, k: nat) -> int
    decreases k,
{
    if k == 0 {
        0
    } else {
        served_step(count, served_after(count, (k - 1) as nat))
    }
}

impl CreatedPageIter {
    /// How many pages the cursor has served so far.
    pub open spec fn served(self) -> int {
        self.served as int
    }

    /// The total page count the cursor was created with.
    pub open spec fn total(self) -> int {
        self.count as int
    }

    /// Whether the cursor is past its last page.
    pub open spec fn exhausted(self) -> bool {
        self.served() >= self.total()
    }
}

/// Allocations a cursor owns: its title buffer and its header array.
pub open spec fn cursor_allocations(it: CreatedPageIter) -> nat {
    1 + header_array_allocations(it.headers)
}

/// Wrap a caller-supplied chapter address into a fresh chapter
/// record, title empty, ordinal zero and headers empty until a fetch
/// fills them.  Never fails.
pub fn create_chapter_ptr(url: &Vec<u8>) -> (c: ChapterModel)
    requires
        text_wf(url@),
    ensures
        c.title@ == Seq::<u8>::empty(),
        c.url@ == url@,
        c.which == 0,
        c.page_headers@ == Seq::<KV<Vec<u8>, Vec<u8>>>::empty(),
{
    ChapterModel { title: Vec::new(), url: copy_bytes(url), which: 0, page_headers: Vec::new() }
}

/// Marshal the engine's answer to opening a page iterator.  On
/// success the cursor starts with nothing served and snapshots the
/// count, title and headers; on failure the channel records the
/// engine's reason verbatim and the cursor's creation fails.
pub fn create_page_iter(chan: &mut ErrorChannel, outcome: Result<PageIterModel, Vec<u8>>) -> (r:
    Result<CreatedPageIter, BoundaryError>)
    requires
        outcome matches Ok(m) ==> page_iter_model_wf(m),
    ensures
        match outcome {
            Ok(m) => {
                &&& r matches Ok(it)
                &&& it.count == m.total
                &&& it.title.wf()
                &&& it.title.content() == m.title@
                &&& header_array_matches(it.headers, m.headers@)
                &&& it.served() == 0
                &&& final(chan).state() == old(chan).state()
            },
            Err(msg) => {
                &&& r matches Err(e) && e == BoundaryError::EngineFailure
                &&& final(chan).state() == Some(msg@)
            },
        },
{
    match outcome {
        Ok(m) => Ok(
            CreatedPageIter {
                count: m.total,
                title: marshal_text(&m.title),
                headers: create_headers_ptr(&m.headers),
                served: 0,
            },
        ),
        Err(msg) => {
            chan.update_last_error(msg);
            Err(BoundaryError::EngineFailure)
        },
    }
}

/// Advance the cursor once.  Past the end this is the terminal
/// condition: the cursor is left unchanged, the channel records the
/// end, and no event is consumed.  Otherwise one more page is served:
/// a resolved address is marshaled into a caller-owned buffer, an
/// engine failure is recorded in the channel verbatim.
pub fn next_page(it: &mut CreatedPageIter, chan: &mut ErrorChannel, event: PageEvent) -> (r:
    Result<TextBuf, BoundaryError>)
    requires
        0 <= old(it).served(),
        !old(it).exhausted() ==> (event matches PageEvent::Resolved(a) ==> text_wf(a@)),
    ensures
        final(it).count == old(it).count,
        final(it).title == old(it).title,
        final(it).headers == old(it).headers,
        final(it).served() == served_step(old(it).total(), old(it).served()),
        (r matches Err(e) && e == BoundaryError::NoMorePages) <==> old(it).exhausted(),
        old(it).exhausted() ==> {
            &&& final(it).served() == old(it).served()
            &&& final(chan).state() matches Some(m) && m.len() > 0
        },
        !old(it).exhausted() ==> match event {
            PageEvent::Resolved(a) => {
                &&& r matches Ok(buf)
                &&& buf.wf()
                &&& buf.content() == a@
                &&& final(chan).state() == old(chan).state()
            },
            PageEvent::Failed(msg) => {
                &&& r matches Err(e) && e == BoundaryError::EngineFailure
                &&& final(chan).state() == Some(msg@)
            },
        },
{
    if it.served >= it.count {
        let mut m: Vec<u8> = Vec::new();
        // the ASCII bytes of "No next page"
        m.push(78u8);
        m.push(111u8);
        m.push(32u8);
        m.push(110u8);
        m.push(101u8);
        m.push(120u8);
        m.push(116u8);
        m.push(32u8);
        m.push(112u8);
        m.push(97u8);
        m.push(103u8);
        m.push(101u8);
        chan.update_last_error(m);
        return Err(BoundaryError::NoMorePages);
    }
    it.served = it.served + 1;
    match event {
        PageEvent::Resolved(a) => Ok(marshal_text(&a)),
        PageEvent::Failed(msg) => {
            chan.update_last_error(msg);
            Err(BoundaryError::EngineFailure)
        },
    }
}

/// Release a cursor: its title buffer and its header array, each
/// allocation exactly once.  The live engine-side iterator is owned
/// by whoever drives the engine and is not this record's to release.
pub fn free_created_page_iter(it: CreatedPageIter) -> (n: usize)
    requires
        cursor_allocations(it) <= usize::MAX,
    ensures
        n == cursor_allocations(it),
{
    let CreatedPageIter { title, headers, .. } = it;
    let released_title = free_string(title);
    let released_headers = free_headers(headers);
    released_title + released_headers
}

/// A cursor with a non-negative total `count` serves exactly `count`
/// pages: after `k` advances of a fresh cursor, the next advance
/// reports the terminal condition if and only if `k >= count`, and
/// once reached the terminal state is absorbing.
pub proof fn lemma_cursor_serves_exactly_total(count: int, k: nat)
    requires
        0 <= count,
    ensures
        served_after(count, k) == if k as int <= count {
            k as int
        } else {
            count
        },
        (served_after(count, k) >= count) <==> (k as int >= count),
    decreases k,
{
    if k > 0 {
        lemma_cursor_serves_exactly_total(count, (k - 1) as nat);
    }
}

} // verus!
