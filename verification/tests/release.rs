use mikack_ffi::ChapterModel;
use mikack_ffi::ComicModel;
use mikack_ffi::KV;
use mikack_ffi::SourceModel;
use mikack_ffi::TagModel;
use mikack_ffi::chapter_array_from_models;
use mikack_ffi::comic_array_from_models;
use mikack_ffi::create_tags_ptr;
use mikack_ffi::free_chapter_array;
use mikack_ffi::free_comic_array;
use mikack_ffi::free_platform_array;
use mikack_ffi::free_tag_array;
use mikack_ffi::platform_array_from_models;

#[test]
fn releasing_converted_tags_visits_every_allocation() {
    let models = vec![
        TagModel { value: 0, name: b"wallless".to_vec() },
        TagModel { value: 1, name: b"nsfw".to_vec() },
    ];
    let arr = create_tags_ptr(&models);
    // one data block plus one name buffer per tag
    assert_eq!(free_tag_array(arr), 3);
}

#[test]
fn releasing_converted_chapters_visits_every_allocation() {
    let models = vec![
        ChapterModel {
            title: b"ch 1".to_vec(),
            url: b"https://site/1".to_vec(),
            which: 1,
            page_headers: vec![
                KV { key: b"referer".to_vec(), value: b"https://site".to_vec() },
                KV { key: b"cookie".to_vec(), value: b"sid=1".to_vec() },
            ],
        },
        ChapterModel {
            title: b"ch 2".to_vec(),
            url: b"https://site/2".to_vec(),
            which: 2,
            page_headers: Vec::new(),
        },
    ];
    let arr = chapter_array_from_models(&models);
    // chapter block, plus per chapter: title, url, and its header
    // array (block + two buffers per pair); an empty header set has
    // no block of its own
    let expected = 1 + (2 + 1 + 4) + (2 + 0);
    assert_eq!(free_chapter_array(arr), expected);
}

#[test]
fn releasing_converted_comics_visits_every_allocation() {
    let models = vec![ComicModel {
        title: b"Demo".to_vec(),
        url: b"https://site/c".to_vec(),
        cover: b"https://site/c.png".to_vec(),
        chapters: vec![ChapterModel {
            title: b"ch".to_vec(),
            url: b"https://site/c/1".to_vec(),
            which: 1,
            page_headers: vec![KV { key: b"k".to_vec(), value: b"v".to_vec() }],
        }],
    }];
    let arr = comic_array_from_models(&models);
    // comic block, three text buffers, chapter block, two chapter
    // buffers, header block, two header buffers
    assert_eq!(free_comic_array(arr), 1 + 3 + 1 + 2 + 1 + 2);
}

#[test]
fn releasing_converted_platforms_visits_every_allocation() {
    let models = vec![SourceModel {
        domain: b"one.example".to_vec(),
        name: b"Site One".to_vec(),
        favicon: b"f.ico".to_vec(),
        is_usable: true,
        is_searchable: false,
        is_pageable: false,
        is_https: true,
        is_search_pageable: false,
        tags: vec![TagModel { value: 0, name: b"wallless".to_vec() }],
    }];
    let arr = platform_array_from_models(&models);
    // platform block, three text buffers, tag block, one tag buffer
    assert_eq!(free_platform_array(arr), 1 + 3 + 1 + 1);
}

#[test]
fn releasing_empty_arrays_releases_nothing() {
    assert_eq!(free_tag_array(create_tags_ptr(&Vec::new())), 0);
    assert_eq!(free_comic_array(comic_array_from_models(&Vec::new())), 0);
    assert_eq!(free_platform_array(platform_array_from_models(&Vec::new())), 0);
}
