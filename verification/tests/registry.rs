use mikack_ffi::BoundaryError;
use mikack_ffi::ErrorChannel;
use mikack_ffi::Registry;
use mikack_ffi::SourceModel;
use mikack_ffi::TagModel;
use mikack_ffi::free_platform_array;
use mikack_ffi::free_tag_array;

fn tag(value: i32, name: &[u8]) -> TagModel {
    TagModel { value, name: name.to_vec() }
}

fn source(domain: &[u8], name: &[u8], tags: Vec<TagModel>) -> SourceModel {
    SourceModel {
        domain: domain.to_vec(),
        name: name.to_vec(),
        favicon: b"favicon.ico".to_vec(),
        is_usable: true,
        is_searchable: true,
        is_pageable: false,
        is_https: true,
        is_search_pageable: false,
        tags,
    }
}

fn demo_registry() -> Registry {
    let mut reg = Registry::new();
    assert!(reg.add_tag(tag(0, b"wallless")));
    assert!(reg.add_tag(tag(1, b"nsfw")));
    assert!(reg.add_tag(tag(2, b"english")));
    assert!(reg.add_source(source(b"one.example", b"Site One", vec![tag(0, b"wallless")])));
    assert!(reg.add_source(source(
        b"two.example",
        b"Site Two",
        vec![tag(0, b"wallless"), tag(1, b"nsfw")],
    )));
    assert!(reg.add_source(source(b"three.example", b"Site Three", vec![tag(2, b"english")])));
    reg
}

#[test]
fn duplicate_domain_refused() {
    let mut reg = demo_registry();
    assert!(!reg.add_source(source(b"one.example", b"Other", Vec::new())));
}

#[test]
fn duplicate_tag_value_refused() {
    let mut reg = demo_registry();
    assert!(!reg.add_tag(tag(1, b"other name")));
}

#[test]
fn platforms_lists_every_source() {
    let reg = demo_registry();
    let arr = reg.platforms();
    assert_eq!(arr.length(), 3);
    assert_eq!(arr.get(0).domain.raw_bytes(), &b"one.example\0".to_vec());
    assert_eq!(arr.get(1).name.raw_bytes(), &b"Site Two\0".to_vec());
    assert!(arr.get(1).is_usable);
    assert!(!arr.get(1).is_pageable);
    assert_eq!(arr.get(1).tags.length(), 2);
    assert_eq!(arr.get(1).tags.get(1).value, 1);
    assert_eq!(arr.get(1).tags.get(1).name.raw_bytes(), &b"nsfw\0".to_vec());
    free_platform_array(arr);
}

#[test]
fn tags_lists_the_taxonomy() {
    let reg = demo_registry();
    let arr = reg.tags();
    assert_eq!(arr.length(), 3);
    assert_eq!(arr.get(0).value, 0);
    assert_eq!(arr.get(2).name.raw_bytes(), &b"english\0".to_vec());
    assert_eq!(free_tag_array(arr), 4);
}

#[test]
fn enumed_tags_drops_unknown_values() {
    let reg = demo_registry();
    let models = reg.enumed_tags(&vec![2, 99, 0, -5]);
    assert_eq!(models.len(), 2);
    assert_eq!(models[0].value, 2);
    assert_eq!(models[0].name, b"english".to_vec());
    assert_eq!(models[1].value, 0);
}

#[test]
fn find_with_no_constraint_is_the_full_registry() {
    let reg = demo_registry();
    let all = reg.platforms();
    let found = reg.find_platforms(&Vec::new(), &Vec::new());
    assert_eq!(found.length(), all.length());
    for i in 0..found.length() {
        assert_eq!(
            found.get(i).domain.raw_bytes(),
            all.get(i).domain.raw_bytes(),
        );
    }
    free_platform_array(all);
    free_platform_array(found);
}

#[test]
fn find_filters_by_include_and_exclude() {
    let reg = demo_registry();
    // include tag 0, exclude tag 1: keeps only the first site
    let found = reg.find_platforms(&vec![0], &vec![1]);
    assert_eq!(found.length(), 1);
    assert_eq!(found.get(0).domain.raw_bytes(), &b"one.example\0".to_vec());
    // an unknown tag value constrains nothing
    let found_all = reg.find_platforms(&vec![99], &Vec::new());
    assert_eq!(found_all.length(), 3);
    free_platform_array(found);
    free_platform_array(found_all);
}

#[test]
fn get_extr_resolves_known_domain() {
    let reg = demo_registry();
    let mut chan = ErrorChannel::new();
    let handle = reg.get_extr(&mut chan, &b"two.example".to_vec()).unwrap();
    assert_eq!(handle.index, 1);
    assert!(!chan.has_last_error());
}

#[test]
fn get_extr_unknown_domain_fails_and_names_it() {
    let reg = demo_registry();
    let mut chan = ErrorChannel::new();
    let r = reg.get_extr(&mut chan, &b"nonexistent.example".to_vec());
    assert_eq!(r, Err(BoundaryError::SourceNotFound));
    let msg = chan.peek_last_error();
    let needle = b"nonexistent.example";
    let found = msg.windows(needle.len()).any(|w| w == needle);
    assert!(found);
}

#[test]
fn error_channel_take_round_trips() {
    let reg = demo_registry();
    let mut chan = ErrorChannel::new();
    let r = reg.get_extr(&mut chan, &b"gone.example".to_vec());
    assert!(r.is_err());
    let first = chan.take_last_error();
    assert!(!first.is_empty());
    let second = chan.take_last_error();
    assert!(second.is_empty());
}

#[test]
fn error_channel_peek_and_length() {
    let mut chan = ErrorChannel::new();
    assert_eq!(chan.last_error_length(), 0);
    chan.update_last_error(b"first".to_vec());
    chan.update_last_error(b"second".to_vec());
    assert_eq!(chan.peek_last_error(), b"second".to_vec());
    assert_eq!(chan.last_error_length(), 6);
    assert!(chan.has_last_error());
    assert_eq!(chan.take_last_error(), b"second".to_vec());
    assert_eq!(chan.last_error_length(), 0);
}
