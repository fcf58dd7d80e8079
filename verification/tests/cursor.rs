use mikack_ffi::BoundaryError;
use mikack_ffi::ChapterModel;
use mikack_ffi::ComicModel;
use mikack_ffi::ErrorChannel;
use mikack_ffi::KV;
use mikack_ffi::PageEvent;
use mikack_ffi::PageIterModel;
use mikack_ffi::chapters;
use mikack_ffi::create_chapter_ptr;
use mikack_ffi::create_page_iter;
use mikack_ffi::free_comic;
use mikack_ffi::free_created_page_iter;
use mikack_ffi::index;
use mikack_ffi::next_page;
use mikack_ffi::search;

fn chapter(title: &[u8], url: &[u8], which: u32) -> ChapterModel {
    ChapterModel {
        title: title.to_vec(),
        url: url.to_vec(),
        which,
        page_headers: vec![KV { key: b"referer".to_vec(), value: url.to_vec() }],
    }
}

#[test]
fn create_chapter_ptr_wraps_the_address() {
    let c = create_chapter_ptr(&b"https://site/c/1".to_vec());
    assert!(c.title.is_empty());
    assert_eq!(c.url, b"https://site/c/1".to_vec());
    assert_eq!(c.which, 0);
    assert!(c.page_headers.is_empty());
}

#[test]
fn fetch_chapters_yields_three_chapters() {
    let mut chan = ErrorChannel::new();
    let fetched = ComicModel {
        title: b"Demo".to_vec(),
        url: b"https://site/c/1".to_vec(),
        cover: b"https://site/cover.png".to_vec(),
        chapters: vec![
            chapter(b"ch 1", b"https://site/c/1/1", 1),
            chapter(b"ch 2", b"https://site/c/1/2", 2),
            chapter(b"ch 3", b"https://site/c/1/3", 3),
        ],
    };
    let comic = chapters(&mut chan, Ok(fetched)).unwrap();
    assert_eq!(comic.title.raw_bytes(), &b"Demo\0".to_vec());
    assert_eq!(comic.chapters.length(), 3);
    assert_eq!(comic.chapters.get(1).which, 2);
    assert_eq!(comic.chapters.get(2).url.raw_bytes(), &b"https://site/c/1/3\0".to_vec());
    assert!(!chan.has_last_error());
    free_comic(comic);
}

#[test]
fn fetch_chapters_failure_sets_the_channel() {
    let mut chan = ErrorChannel::new();
    let r = chapters(&mut chan, Err(b"connection reset".to_vec()));
    assert_eq!(r.unwrap_err(), BoundaryError::EngineFailure);
    assert_eq!(chan.take_last_error(), b"connection reset".to_vec());
}

#[test]
fn cursor_serves_total_then_no_more_pages() {
    let mut chan = ErrorChannel::new();
    let opened = PageIterModel {
        total: 5,
        title: b"ch 1".to_vec(),
        headers: vec![KV { key: b"cookie".to_vec(), value: b"sid=1".to_vec() }],
    };
    let mut cursor = create_page_iter(&mut chan, Ok(opened)).unwrap();
    assert_eq!(cursor.count, 5);
    assert_eq!(cursor.title.raw_bytes(), &b"ch 1\0".to_vec());
    assert_eq!(cursor.headers.length(), 1);
    for k in 0..5u32 {
        let address = format!("https://site/p/{}", k).into_bytes();
        let r = next_page(&mut cursor, &mut chan, PageEvent::Resolved(address.clone()));
        let page = r.unwrap();
        let mut expected = address;
        expected.push(0);
        assert_eq!(page.raw_bytes(), &expected);
        assert!(!chan.has_last_error());
        mikack_ffi::free_string(page);
    }
    // past the end: the terminal condition, idempotently
    for _ in 0..3 {
        let r = next_page(&mut cursor, &mut chan, PageEvent::Resolved(b"ignored".to_vec()));
        assert_eq!(r.unwrap_err(), BoundaryError::NoMorePages);
        assert!(!chan.take_last_error().is_empty());
    }
    assert_eq!(free_created_page_iter(cursor), 4);
}

#[test]
fn cursor_reports_engine_failure_per_page() {
    let mut chan = ErrorChannel::new();
    let opened = PageIterModel { total: 2, title: b"ch".to_vec(), headers: Vec::new() };
    let mut cursor = create_page_iter(&mut chan, Ok(opened)).unwrap();
    let r = next_page(&mut cursor, &mut chan, PageEvent::Failed(b"timeout".to_vec()));
    assert_eq!(r.unwrap_err(), BoundaryError::EngineFailure);
    assert_eq!(chan.take_last_error(), b"timeout".to_vec());
    // the failed advance consumed a page slot
    let r = next_page(&mut cursor, &mut chan, PageEvent::Resolved(b"https://p/2".to_vec()));
    assert!(r.is_ok());
    let r = next_page(&mut cursor, &mut chan, PageEvent::Resolved(b"x".to_vec()));
    assert_eq!(r.unwrap_err(), BoundaryError::NoMorePages);
    free_created_page_iter(cursor);
}

#[test]
fn create_page_iter_failure_sets_the_channel() {
    let mut chan = ErrorChannel::new();
    let r = create_page_iter(&mut chan, Err(b"no such chapter".to_vec()));
    assert_eq!(r.unwrap_err(), BoundaryError::EngineFailure);
    assert_eq!(chan.peek_last_error(), b"no such chapter".to_vec());
}

#[test]
fn index_converts_the_listing() {
    let mut chan = ErrorChannel::new();
    let comics = vec![
        ComicModel {
            title: b"A".to_vec(),
            url: b"https://site/a".to_vec(),
            cover: b"https://site/a.png".to_vec(),
            chapters: Vec::new(),
        },
        ComicModel {
            title: b"B".to_vec(),
            url: b"https://site/b".to_vec(),
            cover: b"https://site/b.png".to_vec(),
            chapters: Vec::new(),
        },
    ];
    let arr = index(&mut chan, Ok(comics)).unwrap();
    assert_eq!(arr.length(), 2);
    assert_eq!(arr.get(0).title.raw_bytes(), &b"A\0".to_vec());
    // an unfetched chapter list crosses as an explicit empty array
    assert_eq!(arr.get(0).chapters.length(), 0);
    assert_eq!(arr.get(1).url.raw_bytes(), &b"https://site/b\0".to_vec());
    mikack_ffi::free_comic_array(arr);
}

#[test]
fn search_failure_sets_the_channel() {
    let mut chan = ErrorChannel::new();
    let r = search(&mut chan, Err(b"bad gateway".to_vec()));
    assert_eq!(r.unwrap_err(), BoundaryError::EngineFailure);
    assert_eq!(chan.take_last_error(), b"bad gateway".to_vec());
}
