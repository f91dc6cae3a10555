//! The cache entry of a lyric pair, as bytes.
//!
//! An entry is the two contents of the pair, the origin first. A content
//! starts with a tag: [`TAG_ABSENT`] and nothing more, [`TAG_LINES`] with the
//! number of lines and the lines, or [`TAG_PLAIN`] with a text. A line is its
//! start time and its text. Numbers take eight bytes, the low byte first; a
//! text is the number of its bytes and the bytes, in UTF-8. Nothing follows
//! the second content.

use crate::lyric::{
    lines_view, LyricContent, LyricContentView, LyricLine, LyricLineView, LyricPair, LyricPairView,
};
use vstd::bytes::{
    lemma_auto_spec_u64_to_from_le_bytes, spec_u64_from_le_bytes, spec_u64_to_le_bytes,
    u64_from_le_bytes, u64_to_le_bytes,
};
use vstd::prelude::*;
use vstd::slice::slice_subrange;
use vstd::utf8::{decode_utf8, encode_utf8, valid_utf8};

verus! {

/// Tag of a content without anything.
pub const TAG_ABSENT: u8 = 0;

/// Tag of a content of timed lines.
pub const TAG_LINES: u8 = 1;

/// Tag of a content of plain text.
pub const TAG_PLAIN: u8 = 2;

/// A text as bytes: the number of its UTF-8 bytes, then the bytes.
pub open spec fn encode_text(text: Seq<char>) -> Seq<u8> {
    spec_u64_to_le_bytes(encode_utf8(text).len() as u64) + encode_utf8(text)
}

/// A line as bytes: its start time, then its text.
pub open spec fn encode_line(line: LyricLineView) -> Seq<u8> {
    spec_u64_to_le_bytes(line.start_ms) + encode_text(line.text)
}

/// Lines as bytes, one after the other.
pub open spec fn encode_lines(lines: Seq<LyricLineView>) -> Seq<u8>
    decreases lines.len(),
{
    if lines.len() == 0 {
        Seq::empty()
    } else {
        encode_lines(lines.drop_last()) + encode_line(lines.last())
    }
}

/// A content as bytes: its tag, then what the tag announces.
pub open spec fn encode_content(content: LyricContentView) -> Seq<u8> {
    match content {
        LyricContentView::Absent => seq![TAG_ABSENT],
        LyricContentView::LineTimestamp(lines) => seq![TAG_LINES] + spec_u64_to_le_bytes(
            lines.len() as u64,
        ) + encode_lines(lines),
        LyricContentView::PlainText(text) => seq![TAG_PLAIN] + encode_text(text),
    }
}

/// A pair as bytes: the origin, then the translation.
pub open spec fn encode_pair(pair: LyricPairView) -> Seq<u8> {
    encode_content(pair.origin) + encode_content(pair.translation)
}

/// The number of bytes of the text can be written in eight bytes.
pub open spec fn text_fits(text: Seq<char>) -> bool {
    encode_utf8(text).len() <= u64::MAX
}

/// The number of lines and the size of each text can be written in eight
/// bytes.
pub open spec fn content_fits(content: LyricContentView) -> bool {
    match content {
        LyricContentView::Absent => true,
        LyricContentView::LineTimestamp(lines) => lines.len() <= u64::MAX && forall|i: int|
            0 <= i < lines.len() ==> text_fits(#[trigger] lines[i].text),
        LyricContentView::PlainText(text) => text_fits(text),
    }
}

/// Every count and size in the pair can be written in eight bytes. This holds
/// of every pair in memory.
pub open spec fn pair_fits(pair: LyricPairView) -> bool {
    content_fits(pair.origin) && content_fits(pair.translation)
}

/// The number at the head of `bytes`, and the bytes behind it.
pub open spec fn decode_u64(bytes: Seq<u8>) -> Option<(u64, Seq<u8>)> {
    if bytes.len() >= 8 {
        Some((spec_u64_from_le_bytes(bytes.take(8)), bytes.skip(8)))
    } else {
        None
    }
}

/// The text at the head of `bytes`, and the bytes behind it. There is none
/// where the size is missing or larger than what follows, or where the bytes
/// of that size are not UTF-8.
pub open spec fn decode_text(bytes: Seq<u8>) -> Option<(Seq<char>, Seq<u8>)> {
    match decode_u64(bytes) {
        Some((size, rest)) => if size <= rest.len() && valid_utf8(rest.take(size as int)) {
            Some((decode_utf8(rest.take(size as int)), rest.skip(size as int)))
        } else {
            None
        },
        None => None,
    }
}

/// The line at the head of `bytes`, and the bytes behind it.
pub open spec fn decode_line(bytes: Seq<u8>) -> Option<(LyricLineView, Seq<u8>)> {
    match decode_u64(bytes) {
        Some((start_ms, rest)) => match decode_text(rest) {
            Some((text, rest)) => Some((LyricLineView { start_ms, text }, rest)),
            None => None,
        },
        None => None,
    }
}

/// The `count` lines at the head of `bytes`, and the bytes behind them.
pub open spec fn decode_lines(bytes: Seq<u8>, count: nat) -> Option<(Seq<LyricLineView>, Seq<u8>)>
    decreases count,
{
    if count == 0 {
        Some((Seq::empty(), bytes))
    } else {
        match decode_line(bytes) {
            Some((line, rest)) => match decode_lines(rest, (count - 1) as nat) {
                Some((lines, rest)) => Some((seq![line] + lines, rest)),
                None => None,
            },
            None => None,
        }
    }
}

/// The content at the head of `bytes`, and the bytes behind it.
pub open spec fn decode_content(bytes: Seq<u8>) -> Option<(LyricContentView, Seq<u8>)> {
    if bytes.len() == 0 {
        None
    } else if bytes[0] == TAG_ABSENT {
        Some((LyricContentView::Absent, bytes.skip(1)))
    } else if bytes[0] == TAG_LINES {
        match decode_u64(bytes.skip(1)) {
            Some((count, rest)) => match decode_lines(rest, count as nat) {
                Some((lines, rest)) => Some((LyricContentView::LineTimestamp(lines), rest)),
                None => None,
            },
            None => None,
        }
    } else if bytes[0] == TAG_PLAIN {
        match decode_text(bytes.skip(1)) {
            Some((text, rest)) => Some((LyricContentView::PlainText(text), rest)),
            None => None,
        }
    } else {
        None
    }
}

/// The pair that `bytes` are the entry of, `None` where they are no entry:
/// a content is cut short or malformed, or bytes are left over.
pub open spec fn decode_pair(bytes: Seq<u8>) -> Option<LyricPairView> {
    match decode_content(bytes) {
        Some((origin, rest)) => match decode_content(rest) {
            Some((translation, rest)) => if rest.len() == 0 {
                Some(LyricPairView { origin, translation })
            } else {
                None
            },
            None => None,
        },
        None => None,
    }
}

/// A number is read back from its bytes, whatever follows them.
pub proof fn lemma_decode_u64(value: u64, tail: Seq<u8>)
    ensures
        decode_u64(spec_u64_to_le_bytes(value) + tail) == Some((value, tail)),
{
    lemma_auto_spec_u64_to_from_le_bytes();
    let bytes = spec_u64_to_le_bytes(value) + tail;
    assert(bytes.take(8) =~= spec_u64_to_le_bytes(value));
    assert(bytes.skip(8) =~= tail);
}

/// A text is read back from its bytes, whatever follows them.
pub proof fn lemma_decode_text(text: Seq<char>, tail: Seq<u8>)
    requires
        text_fits(text),
    ensures
        decode_text(encode_text(text) + tail) == Some((text, tail)),
{
    let body = encode_utf8(text);
    let size = body.len() as u64;
    assert(encode_text(text) + tail =~= spec_u64_to_le_bytes(size) + (body + tail));
    lemma_decode_u64(size, body + tail);
    assert((body + tail).take(size as int) =~= body);
    assert((body + tail).skip(size as int) =~= tail);
    vstd::utf8::encode_utf8_valid_utf8(text);
    vstd::utf8::encode_utf8_decode_utf8(text);
}

/// A line is read back from its bytes, whatever follows them.
pub proof fn lemma_decode_line(line: LyricLineView, tail: Seq<u8>)
    requires
        text_fits(line.text),
    ensures
        decode_line(encode_line(line) + tail) == Some((line, tail)),
{
    assert(encode_line(line) + tail =~= spec_u64_to_le_bytes(line.start_ms) + (encode_text(
        line.text,
    ) + tail));
    lemma_decode_u64(line.start_ms, encode_text(line.text) + tail);
    lemma_decode_text(line.text, tail);
}

/// The bytes of lines start with the bytes of the first line.
pub proof fn lemma_encode_lines_front(lines: Seq<LyricLineView>)
    requires
        lines.len() > 0,
    ensures
        encode_lines(lines) == encode_line(lines.first()) + encode_lines(lines.drop_first()),
    decreases lines.len(),
{
    if lines.len() == 1 {
        assert(lines.drop_last() =~= Seq::<LyricLineView>::empty());
        assert(lines.drop_first() =~= Seq::<LyricLineView>::empty());
        assert(encode_lines(lines) =~= encode_line(lines.first()) + encode_lines(
            lines.drop_first(),
        ));
    } else {
        lemma_encode_lines_front(lines.drop_last());
        assert(lines.drop_last().drop_first() =~= lines.drop_first().drop_last());
        assert(lines.drop_last().first() == lines.first());
        assert(lines.drop_first().last() == lines.last());
        assert(encode_lines(lines) =~= encode_line(lines.first()) + encode_lines(
            lines.drop_first(),
        ));
    }
}

/// Lines are read back from their bytes, whatever follows them.
pub proof fn lemma_decode_lines(lines: Seq<LyricLineView>, tail: Seq<u8>)
    requires
        forall|i: int| 0 <= i < lines.len() ==> text_fits(#[trigger] lines[i].text),
    ensures
        decode_lines(encode_lines(lines) + tail, lines.len()) == Some((lines, tail)),
    decreases lines.len(),
{
    if lines.len() == 0 {
        assert(encode_lines(lines) + tail =~= tail);
        assert(lines =~= Seq::<LyricLineView>::empty());
    } else {
        let first = lines.first();
        let others = lines.drop_first();
        lemma_encode_lines_front(lines);
        assert(encode_lines(lines) + tail =~= encode_line(first) + (encode_lines(others) + tail));
        assert(text_fits(lines[0].text));
        lemma_decode_line(first, encode_lines(others) + tail);
        assert forall|i: int| 0 <= i < others.len() implies text_fits(
            #[trigger] others[i].text,
        ) by {
            assert(others[i] == lines[i + 1]);
        }
        lemma_decode_lines(others, tail);
        assert(seq![first] + others =~= lines);
    }
}

/// A content is read back from its bytes, whatever follows them.
pub proof fn lemma_decode_content(content: LyricContentView, tail: Seq<u8>)
    requires
        content_fits(content),
    ensures
        decode_content(encode_content(content) + tail) == Some((content, tail)),
{
    let bytes = encode_content(content) + tail;
    match content {
        LyricContentView::Absent => {
            assert(bytes.skip(1) =~= tail);
        },
        LyricContentView::LineTimestamp(lines) => {
            let count = lines.len() as u64;
            assert(bytes.skip(1) =~= spec_u64_to_le_bytes(count) + (encode_lines(lines) + tail));
            lemma_decode_u64(count, encode_lines(lines) + tail);
            lemma_decode_lines(lines, tail);
        },
        LyricContentView::PlainText(text) => {
            assert(bytes.skip(1) =~= encode_text(text) + tail);
            lemma_decode_text(text, tail);
        },
    }
}

/// Round trip: the entry of a pair is read back as that pair.
pub proof fn lemma_decode_encode(pair: LyricPairView)
    requires
        pair_fits(pair),
    ensures
        decode_pair(encode_pair(pair)) == Some(pair),
{
    let none = Seq::<u8>::empty();
    lemma_decode_content(pair.origin, encode_content(pair.translation));
    lemma_decode_content(pair.translation, none);
    assert(encode_content(pair.translation) + none =~= encode_content(pair.translation));
}

/// Appends `bytes` to `out`.
pub(crate) fn append_bytes(out: &mut Vec<u8>, bytes: &[u8])
    ensures
        final(out)@ == old(out)@ + bytes@,
{
    let mut i: usize = 0;
    while i < bytes.len()
        invariant
            i <= bytes.len(),
            out@ == old(out)@ + bytes@.take(i as int),
        decreases bytes.len() - i,
    {
        out.push(bytes[i]);
        i += 1;
        assert(bytes@.take(i as int) =~= bytes@.take(i - 1).push(bytes@[i - 1]));
    }
    assert(bytes@.take(i as int) =~= bytes@);
}

/// Appends a number to `out`.
fn put_u64(out: &mut Vec<u8>, value: u64)
    ensures
        final(out)@ == old(out)@ + spec_u64_to_le_bytes(value),
{
    let bytes = u64_to_le_bytes(value);
    append_bytes(out, bytes.as_slice());
}

/// Appends a text to `out`.
fn put_text(out: &mut Vec<u8>, text: &String)
    ensures
        final(out)@ == old(out)@ + encode_text(text@),
        text_fits(text@),
{
    let bytes = text.as_str().as_bytes();
    put_u64(out, bytes.len() as u64);
    append_bytes(out, bytes);
    assert(out@ =~= old(out)@ + encode_text(text@));
}

/// Appends a line to `out`.
fn put_line(out: &mut Vec<u8>, line: &LyricLine)
    ensures
        final(out)@ == old(out)@ + encode_line(line@),
        text_fits(line@.text),
{
    put_u64(out, line.start_ms);
    put_text(out, &line.text);
    assert(out@ =~= old(out)@ + encode_line(line@));
}

/// Appends a content to `out`.
fn put_content(out: &mut Vec<u8>, content: &LyricContent)
    ensures
        final(out)@ == old(out)@ + encode_content(content@),
        content_fits(content@),
{
    match content {
        LyricContent::Absent => {
            out.push(TAG_ABSENT);
            assert(out@ =~= old(out)@ + encode_content(content@));
        },
        LyricContent::LineTimestamp(lines) => {
            out.push(TAG_LINES);
            put_u64(out, lines.len() as u64);
            let ghost head = out@;
            let ghost all = lines_view(lines@);
            let mut i: usize = 0;
            while i < lines.len()
                invariant
                    i <= lines.len(),
                    all == lines_view(lines@),
                    out@ == head + encode_lines(all.take(i as int)),
                    forall|k: int| 0 <= k < i ==> text_fits(#[trigger] all[k].text),
                decreases lines.len() - i,
            {
                put_line(out, &lines[i]);
                i += 1;
                assert(all.take(i as int).drop_last() =~= all.take(i - 1));
                assert(all.take(i as int).last() == lines[i - 1]@);
            }
            assert(all.take(i as int) =~= all);
            assert(out@ =~= old(out)@ + encode_content(content@));
        },
        LyricContent::PlainText(text) => {
            out.push(TAG_PLAIN);
            put_text(out, text);
            assert(out@ =~= old(out)@ + encode_content(content@));
        },
    }
}

/// The cache entry of `pair`. Read back with [`decode_lyric_pair`] it gives
/// the pair again.
pub fn encode_lyric_pair(pair: &LyricPair) -> (entry: Vec<u8>)
    ensures
        entry@ == encode_pair(pair@),
        pair_fits(pair@),
        decode_pair(entry@) == Some(pair@),
{
    let mut entry: Vec<u8> = Vec::new();
    put_content(&mut entry, &pair.origin);
    put_content(&mut entry, &pair.translation);
    assert(entry@ =~= encode_pair(pair@));
    proof {
        lemma_decode_encode(pair@);
    }
    entry
}

/// `String::from_utf8` of the standard library: the string whose UTF-8 bytes
/// are `bytes`. It is `None` exactly where `bytes` are not UTF-8.
#[verifier::external_body]
fn text_from_utf8(bytes: Vec<u8>) -> (text: Option<String>)
    ensures
        text is Some <==> valid_utf8(bytes@),
        text matches Some(string) ==> encode_utf8(string@) == bytes@,
{
    match String::from_utf8(bytes) {
        Ok(string) => Some(string),
        Err(_) => None,
    }
}

/// Reads the number at `at`.
fn take_u64(bytes: &[u8], at: usize) -> (taken: Option<(u64, usize)>)
    requires
        at <= bytes@.len(),
    ensures
        match taken {
            Some((value, next)) => at <= next <= bytes@.len() && decode_u64(bytes@.skip(at as int))
                == Some((value, bytes@.skip(next as int))),
            None => decode_u64(bytes@.skip(at as int)) is None,
        },
{
    if bytes.len() - at < 8 {
        return None;
    }
    let value = u64_from_le_bytes(slice_subrange(bytes, at, at + 8));
    assert(bytes@.skip(at as int).take(8) =~= bytes@.subrange(at as int, at + 8));
    assert(bytes@.skip(at as int).skip(8) =~= bytes@.skip(at + 8));
    Some((value, at + 8))
}

/// Reads the text at `at`.
fn take_text(bytes: &[u8], at: usize) -> (taken: Option<(String, usize)>)
    requires
        at <= bytes@.len(),
    ensures
        match taken {
            Some((text, next)) => at <= next <= bytes@.len() && decode_text(
                bytes@.skip(at as int),
            ) == Some((text@, bytes@.skip(next as int))),
            None => decode_text(bytes@.skip(at as int)) is None,
        },
{
    let (size, start) = match take_u64(bytes, at) {
        Some(taken) => taken,
        None => {
            return None;
        },
    };
    if size > (bytes.len() - start) as u64 {
        return None;
    }
    let end: usize = start + size as usize;
    let body = vstd::slice::slice_to_vec(slice_subrange(bytes, start, end));
    assert(bytes@.skip(start as int).take(size as int) =~= body@);
    assert(bytes@.skip(start as int).skip(size as int) =~= bytes@.skip(end as int));
    match text_from_utf8(body) {
        Some(text) => {
            proof {
                vstd::utf8::encode_utf8_decode_utf8(text@);
            }
            Some((text, end))
        },
        None => None,
    }
}

/// Reads the line at `at`.
fn take_line(bytes: &[u8], at: usize) -> (taken: Option<(LyricLine, usize)>)
    requires
        at <= bytes@.len(),
    ensures
        match taken {
            Some((line, next)) => at <= next <= bytes@.len() && decode_line(
                bytes@.skip(at as int),
            ) == Some((line@, bytes@.skip(next as int))),
            None => decode_line(bytes@.skip(at as int)) is None,
        },
{
    let (start_ms, start) = match take_u64(bytes, at) {
        Some(taken) => taken,
        None => {
            return None;
        },
    };
    match take_text(bytes, start) {
        Some((text, next)) => Some((LyricLine { start_ms, text }, next)),
        None => None,
    }
}

/// Reads `count` lines from `at` on.
fn take_lines(bytes: &[u8], at: usize, count: u64) -> (taken: Option<(Vec<LyricLine>, usize)>)
    requires
        at <= bytes@.len(),
    ensures
        match taken {
            Some((lines, next)) => at <= next <= bytes@.len() && decode_lines(
                bytes@.skip(at as int),
                count as nat,
            ) == Some((lines_view(lines@), bytes@.skip(next as int))),
            None => decode_lines(bytes@.skip(at as int), count as nat) is None,
        },
{
    let mut lines: Vec<LyricLine> = Vec::new();
    let mut cursor: usize = at;
    let mut done: u64 = 0;
    assert(lines_view(lines@) =~= Seq::<LyricLineView>::empty());
    assert(decode_lines(bytes@.skip(at as int), count as nat) matches Some((ahead, rest))
        ==> Seq::<LyricLineView>::empty() + ahead =~= ahead);
    while done < count
        invariant
            at <= cursor <= bytes@.len(),
            done <= count,
            decode_lines(bytes@.skip(at as int), count as nat) == match decode_lines(
                bytes@.skip(cursor as int),
                (count - done) as nat,
            ) {
                Some((ahead, rest)) => Some((lines_view(lines@) + ahead, rest)),
                None => None,
            },
        decreases count - done,
    {
        let ghost before = lines_view(lines@);
        match take_line(bytes, cursor) {
            Some((line, next)) => {
                let ghost value = line@;
                lines.push(line);
                proof {
                    assert(lines_view(lines@) =~= before.push(value));
                    let left = (count - done - 1) as nat;
                    match decode_lines(bytes@.skip(next as int), left) {
                        Some((ahead, rest)) => {
                            assert(before + (seq![value] + ahead) =~= before.push(value) + ahead);
                        },
                        None => {},
                    }
                }
                cursor = next;
                done += 1;
            },
            None => {
                return None;
            },
        }
    }
    assert(lines_view(lines@) + Seq::<LyricLineView>::empty() =~= lines_view(lines@));
    Some((lines, cursor))
}

/// Reads the content at `at`.
fn take_content(bytes: &[u8], at: usize) -> (taken: Option<(LyricContent, usize)>)
    requires
        at <= bytes@.len(),
    ensures
        match taken {
            Some((content, next)) => at <= next <= bytes@.len() && decode_content(
                bytes@.skip(at as int),
            ) == Some((content@, bytes@.skip(next as int))),
            None => decode_content(bytes@.skip(at as int)) is None,
        },
{
    if at == bytes.len() {
        return None;
    }
    let tag: u8 = bytes[at];
    assert(bytes@.skip(at as int)[0] == tag);
    assert(bytes@.skip(at as int).skip(1) =~= bytes@.skip(at + 1));
    if tag == TAG_ABSENT {
        Some((LyricContent::Absent, at + 1))
    } else if tag == TAG_LINES {
        let (count, start) = match take_u64(bytes, at + 1) {
            Some(taken) => taken,
            None => {
                return None;
            },
        };
        match take_lines(bytes, start, count) {
            Some((lines, next)) => Some((LyricContent::LineTimestamp(lines), next)),
            None => None,
        }
    } else if tag == TAG_PLAIN {
        match take_text(bytes, at + 1) {
            Some((text, next)) => Some((LyricContent::PlainText(text), next)),
            None => None,
        }
    } else {
        None
    }
}

/// The pair that `bytes` are the cache entry of, `None` where they are not
/// an entry.
pub fn decode_lyric_pair(bytes: &[u8]) -> (pair: Option<LyricPair>)
    ensures
        match pair {
            Some(pair) => decode_pair(bytes@) == Some(pair@),
            None => decode_pair(bytes@) is None,
        },
{
    assert(bytes@.skip(0) =~= bytes@);
    let (origin, middle) = match take_content(bytes, 0) {
        Some(taken) => taken,
        None => {
            return None;
        },
    };
    let (translation, end) = match take_content(bytes, middle) {
        Some(taken) => taken,
        None => {
            return None;
        },
    };
    if end == bytes.len() {
        Some(LyricPair { origin, translation })
    } else {
        None
    }
}

} // verus!
