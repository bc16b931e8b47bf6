use std::collections::HashMap;

use bytes::Bytes;
use http::header::{HeaderName, HeaderValue};
use http::HeaderMap;

use http_message::{
    drain, Body, BodyError, BorrowHeaderMap, FixedBody, FromParts, IntoParts, Message, Parse,
    StreamBody,
};

fn host_map() -> HeaderMap {
    let mut m = HeaderMap::new();
    m.insert(
        HeaderName::from_static("host"),
        HeaderValue::from_static("example.com"),
    );
    m
}

#[test]
fn fixed_body_yields_buffer_once() {
    let mut body = FixedBody::new(Some(Bytes::from_static(b"hello")));
    assert_eq!(body.next_data(), Some(Ok(Bytes::from_static(b"hello"))));
    assert_eq!(body.next_data(), None);
    assert_eq!(body.next_trailers(), None);
}

#[test]
fn fixed_body_exhaustion_is_idempotent() {
    let mut body = FixedBody::new(Some(Bytes::from_static(b"x")));
    assert_eq!(body.next_data(), Some(Ok(Bytes::from_static(b"x"))));
    assert_eq!(body.next_data(), None);
    assert_eq!(body.next_data(), None);
    assert_eq!(body.next_data(), None);
}

#[test]
fn fixed_body_without_buffer_is_exhausted_at_once() {
    let mut body = FixedBody::new(None);
    assert_eq!(body.next_data(), None);
    assert_eq!(body.next_trailers(), None);
}

#[test]
fn fixed_body_size_hint_is_exact() {
    let body = FixedBody::new(Some(Bytes::from_static(b"hello")));
    assert_eq!(body.size_hint(), (5, Some(5)));
    let empty = FixedBody::new(None);
    assert_eq!(empty.size_hint(), (0, Some(0)));
}

#[test]
fn stream_body_returns_pushed_chunks_in_order() {
    let chunks: Vec<&[u8]> = vec![b"ab", b"cd", b"", b"efg"];
    let mut body = StreamBody::new();
    for c in &chunks {
        body.push_chunk(Bytes::copy_from_slice(c));
    }
    let (got, err) = drain(&mut body);
    assert_eq!(err, None);
    assert_eq!(got.len(), chunks.len());
    for (g, c) in got.iter().zip(chunks.iter()) {
        assert_eq!(g.as_ref(), *c);
    }
    let joined: Vec<u8> = got.iter().flat_map(|b| b.iter().copied()).collect();
    assert_eq!(joined, b"abcdefg".to_vec());
}

#[test]
fn stream_body_surfaces_error_after_chunks() {
    let mut body = StreamBody::new();
    body.push_chunk(Bytes::from_static(b"ab"));
    body.push_chunk(Bytes::from_static(b"cd"));
    body.push_error(BodyError::Read);
    let (got, err) = drain(&mut body);
    assert_eq!(got.len(), 2);
    assert_eq!(got[0], Bytes::from_static(b"ab"));
    assert_eq!(got[1], Bytes::from_static(b"cd"));
    assert_eq!(err, Some(BodyError::Read));
    assert_eq!(body.next_data(), None);
    assert_eq!(body.next_trailers(), None);
}

#[test]
fn stream_body_surfaces_malformed_trailer_error() {
    let mut body = StreamBody::new();
    body.push_error(BodyError::MalformedTrailers);
    assert_eq!(body.next_data(), Some(Err(BodyError::MalformedTrailers)));
    assert_eq!(body.next_data(), None);
}

#[test]
fn stream_body_hands_out_trailers_once_after_exhaustion() {
    let mut body = StreamBody::new();
    body.push_chunk(Bytes::from_static(b"data"));
    body.set_trailers(host_map());
    assert_eq!(body.next_trailers(), None);
    let (got, err) = drain(&mut body);
    assert_eq!(err, None);
    assert_eq!(got.len(), 1);
    assert_eq!(body.next_trailers(), Some(Ok(host_map())));
    assert_eq!(body.next_trailers(), None);
}

#[test]
fn stream_body_size_hint_bounds_queued_bytes() {
    let mut body = StreamBody::new();
    assert_eq!(body.size_hint(), (0, None));
    body.push_chunk(Bytes::from_static(b"ab"));
    body.push_chunk(Bytes::from_static(b"cde"));
    assert_eq!(body.size_hint(), (5, None));
}

#[test]
fn message_round_trip_keeps_metadata_and_body() {
    let m: Message<HeaderMap, FixedBody> =
        Message::from_parts(host_map(), FixedBody::new(Some(Bytes::from_static(b"hello"))));
    let (parts, body) = m.into_parts();
    assert_eq!(parts, host_map());
    let mut rebuilt: Message<HeaderMap, FixedBody> = Message::from_parts(parts, body);
    assert_eq!(*rebuilt.parts(), host_map());
    let mut want_body = FixedBody::new(Some(Bytes::from_static(b"hello")));
    let (want, _) = drain(&mut want_body);
    let (parts2, mut body2) = rebuilt.into_parts();
    assert_eq!(parts2, host_map());
    let (got, err) = drain(&mut body2);
    assert_eq!(err, None);
    assert_eq!(got, want);
    assert_eq!(got, vec![Bytes::from_static(b"hello")]);
}

#[test]
fn message_round_trip_with_stream_body() {
    let mut inner = StreamBody::new();
    inner.push_chunk(Bytes::from_static(b"ab"));
    inner.push_chunk(Bytes::from_static(b"cd"));
    let m: Message<u64, StreamBody> = Message::from_parts(7, inner);
    let (parts, body) = m.into_parts();
    assert_eq!(parts, 7);
    let rebuilt: Message<u64, StreamBody> = Message::from_parts(parts, body);
    let (_, mut body2) = rebuilt.into_parts();
    let (got, err) = drain(&mut body2);
    assert_eq!(err, None);
    assert_eq!(
        got,
        vec![Bytes::from_static(b"ab"), Bytes::from_static(b"cd")]
    );
}

#[test]
fn parse_cell_lifecycle() {
    let mut cell: Parse<u32> = Parse::default();
    assert!(cell.is_unparsed());
    assert!(!cell.is_failed());
    cell.set(42);
    assert!(!cell.is_unparsed());
    assert!(matches!(cell, Parse::Parsed(42)));
    cell.reset();
    assert!(cell.is_unparsed());
    cell.set_default();
    assert!(matches!(cell, Parse::Parsed(0)));
}

#[test]
fn parse_cell_failed_is_distinct_from_unparsed() {
    let mut cell: Parse<u32> = Parse::Failed;
    assert!(!cell.is_unparsed());
    assert!(cell.is_failed());
    cell.reset();
    assert!(cell.is_unparsed());
    assert!(!cell.is_failed());
}

#[test]
fn parse_cell_holds_query_map_payload() {
    let mut cell: Parse<HashMap<String, String>> = Parse::default();
    assert!(cell.is_unparsed());
    cell.set_default();
    assert!(matches!(&cell, Parse::Parsed(m) if m.is_empty()));
    let mut q = HashMap::new();
    q.insert(String::from("k"), String::from("v2"));
    cell.set(q);
    assert!(matches!(&cell, Parse::Parsed(m) if m["k"] == "v2"));
}

#[test]
fn header_map_reports_itself() {
    let map = host_map();
    let reported = map.header_map();
    assert_eq!(*reported, host_map());
}

#[test]
fn header_map_delegate_reports_wrapped_map() {
    let map = host_map();
    let delegate = &map;
    let reported = <&HeaderMap as BorrowHeaderMap>::header_map(&delegate);
    assert_eq!(*reported, host_map());
    let entries: Vec<(String, String)> = reported
        .iter()
        .map(|(k, v)| (k.as_str().to_string(), v.to_str().unwrap().to_string()))
        .collect();
    assert_eq!(
        entries,
        vec![(String::from("host"), String::from("example.com"))]
    );
}

#[test]
fn message_exposes_header_map_of_its_parts() {
    let m: Message<HeaderMap, FixedBody> =
        Message::from_parts(host_map(), FixedBody::new(None));
    assert_eq!(*m.header_map(), host_map());
}
