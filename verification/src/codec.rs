//! Streaming decoders over the chunks of a response body.
//!
//! A chunk either holds one or more complete, back-to-back JSON documents
//! (multi-document decoding: nothing is buffered across chunk boundaries,
//! and a chunk whose tail is not a complete document ends the stream), or
//! it is part of a newline-delimited feed (line decoding: bytes are
//! buffered up to the next newline, so a line may span chunks). In either
//! mode the first error ends the stream; no later item is emitted.

use vstd::prelude::*;

use crate::errors::Error;

verus! {

/// serde_json's parsed JSON document, carried opaquely through the
/// decoders.
#[verifier::external_type_specification]
#[verifier::external_body]
pub struct ExJsonValue(serde_json::Value);

/// Whether a buffer parses as exactly one JSON document.
pub uninterp spec fn json_parse_ok(bytes: Seq<u8>) -> bool;

/// The document a buffer parses to, when it parses.
pub uninterp spec fn json_value_of(bytes: Seq<u8>) -> serde_json::Value;

/// Relies on `serde_json::from_slice`: parses a buffer holding exactly one
/// JSON document, and fails on anything else.
#[verifier::external_body]
fn parse_json(bytes: &[u8]) -> (r: Option<serde_json::Value>)
    ensures
        r is Some <==> json_parse_ok(bytes@),
        r matches Some(v) ==> v == json_value_of(bytes@),
{
    serde_json::from_slice(bytes).ok()
}

/// The complete documents at the front of a buffer read as back-to-back
/// JSON.
pub uninterp spec fn json_docs_of(bytes: Seq<u8>) -> Seq<serde_json::Value>;

/// Whether a buffer is exactly a run of complete back-to-back JSON
/// documents, with no malformed or truncated tail.
pub uninterp spec fn json_docs_complete(bytes: Seq<u8>) -> bool;

/// Relies on `serde_json::StreamDeserializer`: yields the documents of a
/// back-to-back buffer in order until the first malformed or truncated
/// document. Iteration stops at that first error, which the trailing
/// `None` marks; the documents before it are exactly the buffer's
/// complete leading run.
#[verifier::external_body]
fn decode_json_docs(chunk: &[u8]) -> (r: Vec<Option<serde_json::Value>>)
    ensures
        json_docs_complete(chunk@) ==> r@ == json_docs_of(chunk@).map_values(
            |v: serde_json::Value| Some(v),
        ),
        !json_docs_complete(chunk@) ==> r@ == json_docs_of(chunk@).map_values(
            |v: serde_json::Value| Some(v),
        ).push(None),
{
    let mut out = Vec::new();
    for item in serde_json::Deserializer::from_slice(chunk).into_iter::<serde_json::Value>() {
        match item {
            Ok(v) => out.push(Some(v)),
            Err(_) => {
                out.push(None);
                break;
            }
        }
    }
    out
}

/// Turns a live response body into a lazy sequence of decoded JSON
/// values, one or more complete documents per chunk. The caller feeds
/// each chunk as it arrives and forwards the returned items; after the
/// first decode error the stream is over and nothing more is emitted.
pub struct JsonStreamDecoder {
    /// Whether a decode error has ended the stream.
    pub done: bool,
}

impl JsonStreamDecoder {
    /// A decoder for a fresh response body.
    pub fn new() -> (r: Self)
        ensures
            !r.done,
    {
        JsonStreamDecoder { done: false }
    }

    /// Decodes one chunk: every complete document of the chunk in order,
    /// then, if the chunk's tail is not a complete document, one decode
    /// error that ends the stream. A chunk fed after the end emits
    /// nothing.
    pub fn feed(&mut self, chunk: &[u8]) -> (out: Vec<Result<serde_json::Value, Error>>)
        ensures
            old(self).done ==> final(self).done && out@.len() == 0,
            !old(self).done && json_docs_complete(chunk@) ==> !final(self).done && out@
                == json_docs_of(chunk@).map_values(
                |v: serde_json::Value| Ok::<serde_json::Value, Error>(v),
            ),
            !old(self).done && !json_docs_complete(chunk@) ==> final(self).done && out@
                == json_docs_of(chunk@).map_values(
                |v: serde_json::Value| Ok::<serde_json::Value, Error>(v),
            ).push(Err(Error::Decode)),
    {
        let mut out: Vec<Result<serde_json::Value, Error>> = Vec::new();
        if self.done {
            return out;
        }
        let mut decoded = decode_json_docs(chunk);
        let n = decoded.len();
        let ghost orig = decoded@;
        let ghost docs = json_docs_of(chunk@);
        let ghost complete = json_docs_complete(chunk@);
        let mut k: usize = 0;
        while decoded.len() > 0
            invariant
                complete ==> orig == docs.map_values(|v: serde_json::Value| Some(v)),
                !complete ==> orig == docs.map_values(|v: serde_json::Value| Some(v)).push(None),
                0 <= k <= orig.len(),
                orig.len() == n,
                decoded@ == orig.subrange(k as int, orig.len() as int),
                k <= docs.len(),
                out@ == docs.map_values(
                    |v: serde_json::Value| Ok::<serde_json::Value, Error>(v),
                ).subrange(0, k as int),
                !self.done,
                !old(self).done,
                docs == json_docs_of(chunk@),
                complete == json_docs_complete(chunk@),
            decreases decoded.len(),
        {
            let item = decoded.remove(0);
            match item {
                Some(v) => {
                    out.push(Ok(v));
                    k += 1;
                    proof {
                        assert(decoded@ =~= orig.subrange(k as int, orig.len() as int));
                        assert(out@ =~= docs.map_values(
                            |v: serde_json::Value| Ok::<serde_json::Value, Error>(v),
                        ).subrange(0, k as int));
                    }
                },
                None => {
                    out.push(Err(Error::Decode));
                    self.done = true;
                    proof {
                        assert(out@ =~= docs.map_values(
                            |v: serde_json::Value| Ok::<serde_json::Value, Error>(v),
                        ).push(Err(Error::Decode)));
                    }
                    return out;
                },
            }
        }
        proof {
            assert(out@ =~= docs.map_values(
                |v: serde_json::Value| Ok::<serde_json::Value, Error>(v),
            ));
        }
        out
    }
}

/// The index of the first newline byte in `s` at or after `from`.
pub open spec fn find_newline(s: Seq<u8>, from: int) -> Option<int>
    decreases s.len() - from,
{
    if from < 0 || from >= s.len() {
        Option::None
    } else if s[from] == 10 {
        Option::Some(from)
    } else {
        find_newline(s, from + 1)
    }
}

/// Splits a byte sequence into its complete newline-terminated lines
/// (without their newline) and the unterminated remainder.
pub open spec fn split_lines(s: Seq<u8>) -> (Seq<Seq<u8>>, Seq<u8>)
    decreases s.len(),
{
    match find_newline(s, 0) {
        Option::None => (Seq::empty(), s),
        Option::Some(i) => {
            if 0 <= i < s.len() {
                let rest = split_lines(s.subrange(i + 1, s.len() as int));
                (seq![s.subrange(0, i)] + rest.0, rest.1)
            } else {
                (Seq::empty(), s)
            }
        },
    }
}

/// Joins lines back, terminating each with a newline.
pub open spec fn join_lines(lines: Seq<Seq<u8>>) -> Seq<u8>
    decreases lines.len(),
{
    if lines.len() == 0 {
        Seq::empty()
    } else {
        join_lines(lines.drop_last()) + lines.last() + seq![10u8]
    }
}

/// There is no newline at or after `from` exactly when the search fails.
proof fn lemma_find_newline_none(s: Seq<u8>, from: int)
    requires
        0 <= from <= s.len(),
        forall|j: int| from <= j < s.len() ==> s[j] != 10,
    ensures
        find_newline(s, from) is None,
    decreases s.len() - from,
{
    if from < s.len() {
        lemma_find_newline_none(s, from + 1);
    }
}

/// The search finds the first newline.
proof fn lemma_find_newline_at(s: Seq<u8>, from: int, k: int)
    requires
        0 <= from <= k < s.len(),
        s[k] == 10,
        forall|j: int| from <= j < k ==> s[j] != 10,
    ensures
        find_newline(s, from) == Option::Some(k),
    decreases s.len() - from,
{
    if from < k {
        lemma_find_newline_at(s, from + 1, k);
    }
}

/// A sequence without newlines is all remainder.
proof fn lemma_split_lines_flat(s: Seq<u8>)
    requires
        !s.contains(10u8),
    ensures
        split_lines(s) == (Seq::<Seq<u8>>::empty(), s),
{
    assert(forall|j: int| 0 <= j < s.len() ==> s[j] != 10) by {
        assert(forall|j: int| 0 <= j < s.len() && s[j] == 10 ==> s.contains(10u8));
    }
    lemma_find_newline_none(s, 0);
}

/// Splitting after a leading newline-free line takes that line first.
proof fn lemma_split_lines_step(pre: Seq<u8>, suf: Seq<u8>)
    requires
        !pre.contains(10u8),
    ensures
        split_lines(pre + seq![10u8] + suf) == (
            seq![pre] + split_lines(suf).0,
            split_lines(suf).1,
        ),
{
    let s = pre + seq![10u8] + suf;
    assert(s[pre.len() as int] == 10);
    assert(forall|j: int| 0 <= j < pre.len() ==> s[j] == pre[j] && s[j] != 10) by {
        assert(forall|j: int| 0 <= j < pre.len() && pre[j] == 10 ==> pre.contains(10u8));
    }
    lemma_find_newline_at(s, 0, pre.len() as int);
    assert(s.subrange(0, pre.len() as int) =~= pre);
    assert(s.subrange(pre.len() as int + 1, s.len() as int) =~= suf);
    assert(split_lines(s).0 =~= seq![pre] + split_lines(suf).0);
}

/// Joining distributes over taking off the first line.
proof fn lemma_join_lines_cons(a: Seq<u8>, lines: Seq<Seq<u8>>)
    ensures
        join_lines(seq![a] + lines) == a + seq![10u8] + join_lines(lines),
    decreases lines.len(),
{
    if lines.len() == 0 {
        assert(seq![a] + lines =~= seq![a]);
        assert(seq![a].drop_last() =~= Seq::<Seq<u8>>::empty());
        assert(seq![a].last() == a);
        assert(join_lines(Seq::<Seq<u8>>::empty()) =~= Seq::<u8>::empty());
        assert(join_lines(seq![a]) =~= Seq::<u8>::empty() + a + seq![10u8]);
        assert(join_lines(seq![a]) =~= a + seq![10u8]);
        assert(a + seq![10u8] + join_lines(lines) =~= a + seq![10u8]);
    } else {
        lemma_join_lines_cons(a, lines.drop_last());
        assert((seq![a] + lines).drop_last() =~= seq![a] + lines.drop_last());
        assert((seq![a] + lines).last() == lines.last());
        assert(join_lines(seq![a] + lines) =~= a + seq![10u8] + join_lines(lines));
    }
}

/// Splitting loses nothing: the lines, each with its newline back, plus
/// the remainder are exactly the input. This is what lets a line span
/// chunk boundaries without loss.
pub proof fn lemma_split_lines_join(s: Seq<u8>)
    ensures
        join_lines(split_lines(s).0) + split_lines(s).1 == s,
    decreases s.len(),
{
    match find_newline(s, 0) {
        Option::None => {
            assert(join_lines(split_lines(s).0) + split_lines(s).1 =~= s);
        },
        Option::Some(i) => {
            lemma_find_newline_in_range(s, 0, i);
            let pre = s.subrange(0, i);
            let suf = s.subrange(i + 1, s.len() as int);
            lemma_split_lines_join(suf);
            lemma_join_lines_cons(pre, split_lines(suf).0);
            assert(s =~= pre + seq![10u8] + suf);
            assert(split_lines(s).0 == seq![pre] + split_lines(suf).0);
            assert(join_lines(split_lines(s).0) + split_lines(s).1 =~= s);
        },
    }
}

/// A found newline lies in range and is a newline.
proof fn lemma_find_newline_in_range(s: Seq<u8>, from: int, i: int)
    requires
        0 <= from,
        find_newline(s, from) == Option::Some(i),
    ensures
        from <= i < s.len(),
        s[i] == 10,
    decreases s.len() - from,
{
    if from < s.len() && s[from] != 10 {
        lemma_find_newline_in_range(s, from + 1, i);
    }
}

/// The cross-chunk buffer of a newline-delimited feed: everything after
/// the last newline seen so far.
pub struct LineBuffer {
    /// The unterminated tail, never holding a newline.
    pub buf: Vec<u8>,
}

impl LineBuffer {
    /// The buffer never holds a newline.
    pub open spec fn wf(&self) -> bool {
        !self.buf@.contains(10u8)
    }

    /// An empty buffer.
    pub fn new() -> (r: Self)
        ensures
            r.buf@.len() == 0,
            r.wf(),
    {
        LineBuffer { buf: Vec::new() }
    }

    /// Feeds one chunk: returns the lines completed by it (without their
    /// newlines, split exactly at newline bytes) and keeps the
    /// unterminated tail for the next chunk.
    pub fn feed(&mut self, chunk: &[u8]) -> (lines: Vec<Vec<u8>>)
        requires
            old(self).wf(),
        ensures
            final(self).wf(),
            lines.deep_view() == split_lines(old(self).buf@ + chunk@).0,
            final(self).buf@ == split_lines(old(self).buf@ + chunk@).1,
    {
        let ghost total = old(self).buf@ + chunk@;
        let mut lines: Vec<Vec<u8>> = Vec::new();
        let mut i: usize = 0;
        proof {
            assert(chunk@.subrange(0, chunk@.len() as int) =~= chunk@);
            assert(lines.deep_view() + split_lines(total).0 =~= split_lines(total).0);
        }
        while i < chunk.len()
            invariant
                0 <= i <= chunk.len(),
                self.wf(),
                split_lines(total).0 == lines.deep_view() + split_lines(
                    self.buf@ + chunk@.subrange(i as int, chunk@.len() as int),
                ).0,
                split_lines(total).1 == split_lines(
                    self.buf@ + chunk@.subrange(i as int, chunk@.len() as int),
                ).1,
            decreases chunk.len() - i,
        {
            let ghost rest = chunk@.subrange(i as int, chunk@.len() as int);
            let ghost rest1 = chunk@.subrange(i + 1, chunk@.len() as int);
            proof {
                assert(rest =~= seq![chunk@[i as int]] + rest1);
            }
            let b = chunk[i];
            if b == 10 {
                proof {
                    assert(self.buf@ + rest =~= self.buf@ + seq![10u8] + rest1);
                    lemma_split_lines_step(self.buf@, rest1);
                }
                let ghost pre_lines = lines.deep_view();
                let ghost pre_buf = self.buf@;
                let mut line: Vec<u8> = Vec::new();
                core::mem::swap(&mut line, &mut self.buf);
                lines.push(line);
                proof {
                    assert(lines.deep_view() =~~= pre_lines.push(pre_buf));
                    assert(self.buf@ + rest1 =~= rest1);
                    assert(lines.deep_view() + split_lines(rest1).0 =~= pre_lines + (seq![pre_buf]
                        + split_lines(rest1).0));
                }
            } else {
                let ghost pre_buf = self.buf@;
                self.buf.push(b);
                proof {
                    assert(self.buf@ + rest1 =~= pre_buf + rest);
                }
            }
            i += 1;
        }
        proof {
            assert(self.buf@ + chunk@.subrange(chunk@.len() as int, chunk@.len() as int)
                =~= self.buf@);
            lemma_split_lines_flat(self.buf@);
            assert(lines.deep_view() =~= lines.deep_view() + split_lines(self.buf@).0);
        }
        lines
    }
}

/// The items a run of completed lines decodes to: one parsed document per
/// line, cut short at the first line that does not parse, which
/// contributes the terminal decode error.
pub open spec fn decode_lines(lines: Seq<Seq<u8>>) -> Seq<Result<serde_json::Value, Error>>
    decreases lines.len(),
{
    if lines.len() == 0 {
        Seq::empty()
    } else if json_parse_ok(lines[0]) {
        seq![Ok(json_value_of(lines[0]))] + decode_lines(lines.drop_first())
    } else {
        seq![Err(Error::Decode)]
    }
}

/// Whether every line of the run parses.
pub open spec fn all_lines_ok(lines: Seq<Seq<u8>>) -> bool {
    forall|i: int| 0 <= i < lines.len() ==> json_parse_ok(#[trigger] lines[i])
}

/// Turns a live response body into a lazy sequence of newline-delimited
/// decoded JSON values, buffering bytes across chunk boundaries up to the
/// next newline. Used for the long-lived event feed. The first line that
/// does not parse ends the stream.
pub struct LineStreamDecoder {
    /// The cross-chunk line buffer.
    pub buf: LineBuffer,
    /// Whether a decode error has ended the stream.
    pub done: bool,
}

impl LineStreamDecoder {
    /// A decoder for a fresh response body.
    pub fn new() -> (r: Self)
        ensures
            r.buf.buf@.len() == 0,
            !r.done,
            r.buf.wf(),
    {
        LineStreamDecoder { buf: LineBuffer::new(), done: false }
    }

    /// Decodes one chunk: the lines it completes yield one parsed
    /// document each, in order, up to the first line that does not parse,
    /// which yields the terminal decode error. A chunk fed after the end
    /// emits nothing.
    pub fn feed(&mut self, chunk: &[u8]) -> (out: Vec<Result<serde_json::Value, Error>>)
        requires
            old(self).buf.wf(),
        ensures
            final(self).buf.wf(),
            old(self).done ==> final(self).done && out@.len() == 0,
            !old(self).done ==> {
                let parts = split_lines(old(self).buf.buf@ + chunk@);
                out@ == decode_lines(parts.0) && final(self).buf.buf@ == parts.1
                    && final(self).done == !all_lines_ok(parts.0)
            },
    {
        let mut out: Vec<Result<serde_json::Value, Error>> = Vec::new();
        if self.done {
            return out;
        }
        let lines = self.buf.feed(chunk);
        let ghost ls = lines.deep_view();
        let mut j: usize = 0;
        proof {
            assert(ls.subrange(0, ls.len() as int) =~= ls);
            assert(out@ + decode_lines(ls) =~= decode_lines(ls));
        }
        while j < lines.len()
            invariant
                0 <= j <= lines.len(),
                ls == lines.deep_view(),
                ls.len() == lines@.len(),
                ls == split_lines(old(self).buf.buf@ + chunk@).0,
                self.buf.wf(),
                self.buf.buf@ == split_lines(old(self).buf.buf@ + chunk@).1,
                !old(self).done,
                forall|i: int| 0 <= i < j ==> json_parse_ok(#[trigger] ls[i]),
                decode_lines(ls) == out@ + decode_lines(ls.subrange(j as int, ls.len() as int)),
                out@.len() == j,
                !self.done,
            decreases lines.len() - j,
        {
            let ghost tail = ls.subrange(j as int, ls.len() as int);
            proof {
                assert(tail[0] == ls[j as int]);
                assert(tail.drop_first() =~= ls.subrange(j + 1, ls.len() as int));
                assert(lines@[j as int].deep_view() =~= lines@[j as int]@);
                assert(lines@[j as int]@ == ls[j as int]);
            }
            match parse_json(lines[j].as_slice()) {
                Some(v) => {
                    out.push(Ok(v));
                    j += 1;
                    proof {
                        assert(decode_lines(tail) =~= seq![
                            Ok::<serde_json::Value, Error>(json_value_of(ls[j - 1])),
                        ] + decode_lines(ls.subrange(j as int, ls.len() as int)));
                        assert(decode_lines(ls) =~= out@ + decode_lines(
                            ls.subrange(j as int, ls.len() as int),
                        ));
                    }
                },
                None => {
                    out.push(Err(Error::Decode));
                    self.done = true;
                    proof {
                        assert(decode_lines(tail) =~= seq![
                            Err::<serde_json::Value, Error>(Error::Decode),
                        ]);
                        assert(decode_lines(ls) =~= out@);
                        assert(!all_lines_ok(ls));
                    }
                    return out;
                },
            }
        }
        proof {
            assert(ls.subrange(ls.len() as int, ls.len() as int) =~= Seq::empty());
            assert(decode_lines(ls) =~= out@);
        }
        out
    }
}

} // verus!
