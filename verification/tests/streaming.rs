use shiplift::codec::{JsonStreamDecoder, LineBuffer, LineStreamDecoder};
use shiplift::errors::Error;

fn value(text: &str) -> serde_json::Value {
    serde_json::from_str(text).unwrap()
}

#[test]
fn two_documents_in_one_chunk() {
    let mut d = JsonStreamDecoder::new();
    let out = d.feed(b"{\"a\":1}{\"b\":2}");
    assert_eq!(out.len(), 2);
    assert_eq!(out[0].as_ref().unwrap(), &value("{\"a\":1}"));
    assert_eq!(out[1].as_ref().unwrap(), &value("{\"b\":2}"));
    assert!(!d.done);
}

#[test]
fn truncated_document_ends_the_stream() {
    let mut d = JsonStreamDecoder::new();
    let out = d.feed(b"{\"a\":1}{\"b\"");
    assert_eq!(out.len(), 2);
    assert!(out[0].is_ok());
    assert!(matches!(out[1], Err(Error::Decode)));
    assert!(d.done);
    let out = d.feed(b":2}");
    assert!(out.is_empty());
    let out = d.feed(b"{\"c\":3}");
    assert!(out.is_empty());
}

#[test]
fn number_with_trailing_garbage_is_one_error() {
    let mut d = JsonStreamDecoder::new();
    let out = d.feed(b"1x");
    assert_eq!(out.len(), 1);
    assert!(matches!(out[0], Err(Error::Decode)));
    assert!(d.done);
    let out = d.feed(b"{\"a\":1}");
    assert!(out.is_empty());
}

#[test]
fn whole_numbers_and_arrays_decode() {
    let mut d = JsonStreamDecoder::new();
    let out = d.feed(b"1 [2,3] \"x\"");
    assert_eq!(out.len(), 3);
    assert_eq!(out[0].as_ref().unwrap(), &value("1"));
    assert_eq!(out[1].as_ref().unwrap(), &value("[2,3]"));
    assert_eq!(out[2].as_ref().unwrap(), &value("\"x\""));
}

#[test]
fn line_split_across_chunks() {
    let mut d = LineStreamDecoder::new();
    let out = d.feed(b"{\"a\":1}\n{\"b\"");
    assert_eq!(out.len(), 1);
    assert_eq!(out[0].as_ref().unwrap(), &value("{\"a\":1}"));
    let out = d.feed(b":2}\n");
    assert_eq!(out.len(), 1);
    assert_eq!(out[0].as_ref().unwrap(), &value("{\"b\":2}"));
    assert!(!d.done);
}

#[test]
fn bad_line_ends_the_feed() {
    let mut d = LineStreamDecoder::new();
    let out = d.feed(b"not json\n{\"a\":1}\n");
    assert_eq!(out.len(), 1);
    assert!(matches!(out[0], Err(Error::Decode)));
    assert!(d.done);
    let out = d.feed(b"{\"b\":2}\n");
    assert!(out.is_empty());
}

#[test]
fn line_buffer_splits_at_newlines() {
    let mut b = LineBuffer::new();
    let lines = b.feed(b"ab\ncd");
    assert_eq!(lines, vec![b"ab".to_vec()]);
    let lines = b.feed(b"ef\n\n");
    assert_eq!(lines, vec![b"cdef".to_vec(), b"".to_vec()]);
    let lines = b.feed(b"tail");
    assert!(lines.is_empty());
    assert_eq!(b.buf, b"tail".to_vec());
}

#[test]
fn empty_chunk_completes_nothing() {
    let mut d = LineStreamDecoder::new();
    let out = d.feed(b"");
    assert!(out.is_empty());
    let out = d.feed(b"{\"a\":");
    assert!(out.is_empty());
    let out = d.feed(b"1}\n");
    assert_eq!(out.len(), 1);
    assert_eq!(out[0].as_ref().unwrap(), &value("{\"a\":1}"));
}
