use systrace::memory::{
    get_child_buffer, get_child_buffer_cstr, read_c_string, read_c_string_chunked, read_fixed,
    MemError,
};
use systrace::stub::StubTarget;

const BASE: usize = 0x1000;

fn stub_with(bytes: Vec<u8>) -> StubTarget {
    StubTarget::new(BASE, bytes, Vec::new())
}

#[test]
fn read_fixed_returns_exactly_n_mapped_bytes() {
    let t = stub_with(vec![10, 20, 30, 40, 50, 60, 70, 80]);
    let v = read_fixed(&t, BASE + 2, 4).expect("range is fully mapped");
    assert_eq!(v, vec![30, 40, 50, 60]);
    assert_eq!(v.len(), 4);
}

#[test]
fn read_fixed_fails_on_unmapped_range() {
    let t = stub_with(vec![1, 2, 3, 4]);
    assert!(matches!(read_fixed(&t, BASE + 2, 4), Err(MemError::ReadFailed)));
    assert!(matches!(read_fixed(&t, BASE - 1, 2), Err(MemError::ReadFailed)));
}

#[test]
fn c_string_shorter_than_one_chunk() {
    let mut image = b"ab\0".to_vec();
    image.resize(16, 0);
    let t = stub_with(image);
    let s = read_c_string_chunked(&t, BASE, 4, 64).expect("terminator within first chunk");
    assert_eq!(s, "ab");
}

#[test]
fn c_string_equal_to_one_chunk() {
    let mut image = b"abcd\0".to_vec();
    image.resize(16, 0);
    let t = stub_with(image);
    let s = read_c_string_chunked(&t, BASE, 4, 64).expect("terminator in second chunk");
    assert_eq!(s, "abcd");
}

#[test]
fn c_string_spanning_multiple_chunks() {
    let mut image = b"abcdefgh\0".to_vec();
    image.resize(16, 0);
    let t = stub_with(image);
    let s = read_c_string_chunked(&t, BASE, 4, 64).expect("terminator in third chunk");
    assert_eq!(s, "abcdefgh");
}

#[test]
fn c_string_without_terminator_fails_explicitly() {
    let image = vec![b'A'; 64];
    let t = stub_with(image);
    assert!(matches!(
        read_c_string_chunked(&t, BASE, 4, 16),
        Err(MemError::Unterminated)
    ));
}

#[test]
fn c_string_over_unmapped_memory_fails() {
    let image = vec![b'A'; 8];
    let t = stub_with(image);
    assert!(matches!(
        read_c_string_chunked(&t, BASE, 4, 64),
        Err(MemError::ReadFailed)
    ));
}

#[test]
fn c_string_decodes_invalid_bytes_with_replacement_marker() {
    let mut image = vec![b'f', 0xff, b'o', 0];
    image.resize(16, 0);
    let t = stub_with(image);
    let s = read_c_string_chunked(&t, BASE, 4, 64).expect("terminated string");
    assert_eq!(s, "f\u{FFFD}o");
}

#[test]
fn default_chunked_reader_handles_long_strings() {
    let mut image = vec![b'x'; 299];
    image.resize(512, 0);
    let t = stub_with(image);
    let s = read_c_string(&t, BASE).expect("terminator within bound");
    assert_eq!(s.len(), 299);
    assert!(s.bytes().all(|b| b == b'x'));
    let s2 = get_child_buffer_cstr(&t, BASE).expect("same scan");
    assert_eq!(s, s2);
}

#[test]
fn get_child_buffer_decodes_fixed_range() {
    let t = stub_with(b"hello, tracer".to_vec());
    let s = get_child_buffer(&t, BASE + 7, 6).expect("mapped");
    assert_eq!(s, "tracer");
    assert!(matches!(
        get_child_buffer(&t, BASE, 100),
        Err(MemError::ReadFailed)
    ));
}
