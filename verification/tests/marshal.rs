use mikack_ffi::BoundaryError;
use mikack_ffi::CArray;
use mikack_ffi::ErrorChannel;
use mikack_ffi::KV;
use mikack_ffi::create_headers_ptr;
use mikack_ffi::free_string;
use mikack_ffi::marshal_text;
use mikack_ffi::unmarshal_text;
use mikack_ffi::validate_text;

#[test]
fn marshal_appends_terminator() {
    let text = b"demo".to_vec();
    let buf = marshal_text(&text);
    assert_eq!(buf.raw_bytes(), &b"demo\0".to_vec());
    assert_eq!(free_string(buf), 1);
}

#[test]
fn marshal_empty_text() {
    let text: Vec<u8> = Vec::new();
    let buf = marshal_text(&text);
    assert_eq!(buf.raw_bytes(), &b"\0".to_vec());
    assert_eq!(free_string(buf), 1);
}

#[test]
fn unmarshal_round_trip() {
    let mut chan = ErrorChannel::new();
    let buf = marshal_text(&b"hello".to_vec());
    let back = unmarshal_text(&mut chan, buf.raw_bytes());
    assert_eq!(back, Ok(b"hello".to_vec()));
    assert!(!chan.has_last_error());
    free_string(buf);
}

#[test]
fn unmarshal_without_terminator_is_malformed() {
    let mut chan = ErrorChannel::new();
    let r = unmarshal_text(&mut chan, &b"hello".to_vec());
    assert_eq!(r, Err(BoundaryError::MalformedText));
    assert!(chan.has_last_error());
}

#[test]
fn unmarshal_invalid_encoding_is_malformed() {
    let mut chan = ErrorChannel::new();
    let r = unmarshal_text(&mut chan, &vec![0xFFu8, 0x41u8, 0u8]);
    assert_eq!(r, Err(BoundaryError::MalformedText));
    assert!(chan.has_last_error());
}

#[test]
fn unmarshal_stops_at_first_terminator() {
    let mut chan = ErrorChannel::new();
    let r = unmarshal_text(&mut chan, &b"ab\0cd\0".to_vec());
    assert_eq!(r, Ok(b"ab".to_vec()));
}

#[test]
fn validate_accepts_multibyte_scalars() {
    // "héllo⁂🙂" as UTF-8, covering two-, three- and four-byte scalars
    let text = vec![
        0x68u8, 0xC3, 0xA9, 0x6C, 0x6C, 0x6F, 0xE2, 0x81, 0x82, 0xF0, 0x9F, 0x99, 0x82,
    ];
    assert!(validate_text(&text));
}

#[test]
fn validate_rejects_lone_continuation_and_surrogates() {
    assert!(!validate_text(&vec![0x80u8]));
    assert!(!validate_text(&vec![0xC2u8]));
    // 0xED 0xA0 0x80 encodes a surrogate and is not well-formed
    assert!(!validate_text(&vec![0xEDu8, 0xA0, 0x80]));
    // overlong encoding of '/'
    assert!(!validate_text(&vec![0xC0u8, 0xAF]));
    // the scalar just above the last one there is
    assert!(!validate_text(&vec![0xF4u8, 0x90, 0x80, 0x80]));
}

#[test]
fn validate_accepts_boundary_scalars() {
    // the largest two-, three- and four-byte scalars
    assert!(validate_text(&vec![0xDFu8, 0xBF]));
    assert!(validate_text(&vec![0xEFu8, 0xBF, 0xBF]));
    assert!(validate_text(&vec![0xF4u8, 0x8F, 0xBF, 0xBF]));
    assert!(validate_text(&Vec::new()));
}

#[test]
fn empty_collection_converts_to_length_zero() {
    let headers: Vec<KV<Vec<u8>, Vec<u8>>> = Vec::new();
    let arr = create_headers_ptr(&headers);
    assert_eq!(arr.length(), 0);
}

#[test]
fn empty_array_accepted_with_or_without_block() {
    // an empty array may carry no block at all or a zero-length block;
    // a reader gates on the length alone and a release accepts both
    let none: CArray<KV<mikack_ffi::TextBuf, mikack_ffi::TextBuf>> = CArray::empty();
    assert_eq!(none.length(), 0);
    assert_eq!(mikack_ffi::free_headers(none), 0);
    let zero_len = create_headers_ptr(&Vec::new());
    assert_eq!(zero_len.length(), 0);
    assert_eq!(mikack_ffi::free_headers(zero_len), 0);
}

#[test]
fn duplicate_header_keys_pass_through() {
    let headers = vec![
        KV { key: b"cookie".to_vec(), value: b"a=1".to_vec() },
        KV { key: b"cookie".to_vec(), value: b"b=2".to_vec() },
    ];
    let arr = create_headers_ptr(&headers);
    assert_eq!(arr.length(), 2);
    assert_eq!(arr.get(0).key.raw_bytes(), &b"cookie\0".to_vec());
    assert_eq!(arr.get(0).value.raw_bytes(), &b"a=1\0".to_vec());
    assert_eq!(arr.get(1).key.raw_bytes(), &b"cookie\0".to_vec());
    assert_eq!(arr.get(1).value.raw_bytes(), &b"b=2\0".to_vec());
    assert_eq!(mikack_ffi::free_headers(arr), 5);
}
