use bytes::BytesMut;
use reactor_core::{hash_name, Header, Headers, WriteHeaders};

fn make_header(name: &[u8], name_pos: usize, value_pos: usize, value_len: usize) -> Header {
    let mut h = Header::new();
    h.set_hash(hash_name(name));
    h.set_name_pos(name_pos);
    h.update_name_len(name.len());
    h.set_value_pos(value_pos);
    h.update_value_len(value_len);
    h
}

#[test]
fn new_header_is_zeroed() {
    let h = Header::new();
    assert_eq!(h.end(), 0);
    let r = h.value_range();
    assert_eq!(r.start, 0);
    assert_eq!(r.end, 0);
}

#[test]
fn header_accumulates_lengths() {
    let mut h = Header::new();
    h.set_name_pos(2);
    h.update_name_len(3);
    h.update_name_len(4);
    h.set_value_pos(10);
    h.update_value_len(5);
    h.update_value_len(1);
    assert_eq!(h.end(), 16);
    let r = h.value_range();
    assert_eq!(r.start, 10);
    assert_eq!(r.end, 16);
}

#[test]
fn set_positions_reset_lengths() {
    let mut h = Header::new();
    h.set_name_pos(0);
    h.update_name_len(7);
    h.set_name_pos(1);
    h.set_value_pos(9);
    h.update_value_len(3);
    h.set_value_pos(12);
    assert_eq!(h.end(), 12);
}

#[test]
fn is_overflow_boundaries() {
    let mut h = Header::new();
    h.update_name_len(6);
    h.update_value_len(4);
    assert!(h.is_overflow(10));
    assert!(h.is_overflow(9));
    assert!(!h.is_overflow(11));
    let mut big = Header::new();
    big.update_name_len(usize::MAX);
    big.update_value_len(1);
    assert!(big.is_overflow(usize::MAX));
}

#[test]
fn store_two_headers_and_get_back() {
    let mut raw = vec![b'.'; 40];
    raw[10..19].copy_from_slice(b"text/html");
    raw[30..32].copy_from_slice(b"42");
    let mut buf = BytesMut::from(&raw[..]);

    let h1 = make_header(b"Content-Type", 0, 10, 9);
    let h2 = make_header(b"Content-Length", 20, 30, 2);

    let mut headers = Headers::new();
    headers.append(h1);
    headers.append(h2);
    headers.flush(&mut buf);

    assert_eq!(headers.get(b"Content-Type").unwrap(), b"text/html".to_vec());
    assert_eq!(headers.get(b"Content-Length").unwrap(), b"42".to_vec());
    assert_eq!(buf.len(), 4);
    assert!(headers.has());
}

#[test]
fn get_is_case_insensitive() {
    let mut raw = vec![b'x'; 20];
    raw[8..12].copy_from_slice(b"gzip");
    let mut buf = BytesMut::from(&raw[..]);
    let h = make_header(b"Content-Encoding", 0, 8, 4);
    let mut headers = Headers::new();
    headers.append(h);
    headers.flush(&mut buf);
    assert_eq!(headers.get(b"content-encoding").unwrap(), b"gzip".to_vec());
    assert_eq!(headers.get(b"CONTENT-ENCODING").unwrap(), b"gzip".to_vec());
    assert_eq!(headers.get(b"cOnTeNt-EnCoDiNg").unwrap(), b"gzip".to_vec());
}

#[test]
fn get_before_flush_is_none() {
    let h = make_header(b"Host", 0, 6, 3);
    let mut headers = Headers::new();
    headers.append(h);
    assert_eq!(headers.get(b"Host"), None);
}

#[test]
fn get_missing_name_is_none() {
    let mut raw = vec![b'y'; 16];
    raw[6..9].copy_from_slice(b"abc");
    let mut buf = BytesMut::from(&raw[..]);
    let h = make_header(b"Host", 0, 6, 3);
    let mut headers = Headers::new();
    headers.append(h);
    headers.flush(&mut buf);
    assert_eq!(headers.get(b"Accept"), None);
    assert_eq!(headers.get(b"Host").unwrap(), b"abc".to_vec());
}

#[test]
fn colliding_hash_overwrites() {
    let mut raw = vec![b'z'; 20];
    raw[4..7].copy_from_slice(b"old");
    raw[10..13].copy_from_slice(b"new");
    let mut buf = BytesMut::from(&raw[..]);
    let first = make_header(b"Pragma", 0, 4, 3);
    let second = make_header(b"Pragma", 8, 10, 3);
    let mut headers = Headers::new();
    headers.append(first);
    headers.append(second);
    headers.flush(&mut buf);
    assert_eq!(headers.get(b"Pragma").unwrap(), b"new".to_vec());
}

#[test]
fn hash_name_matches_case_variants_only() {
    assert_eq!(hash_name(b"Content-Length"), hash_name(b"content-length"));
    assert_eq!(hash_name(b"ACCEPT"), hash_name(b"accept"));
    assert_ne!(hash_name(b"Accept"), hash_name(b"Accept-Language"));
}
