//! The lyric cache: one entry per track, at a path below the cache root that
//! is derived from the track.
//!
//! The path is the FNV-1a hash (64 bits) of the track's key, written as
//! sixteen hexadecimal digits, with the extension `.lyric`. The key lists the
//! identifying fields in UTF-8, each closed by a byte that UTF-8 never uses.
//! Reading and writing the files is the caller's work; what is written is the
//! entry of [`crate::codec`].

use crate::codec::{append_bytes, decode_lyric_pair, decode_pair, encode_pair, pair_fits};
use crate::lyric::{view_of_entry, LyricPair, LyricPairView};
use crate::track::{TrackMeta, TrackMetaView};
use vstd::prelude::*;
use vstd::utf8::encode_utf8;

verus! {

/// Closes each field of a track key; no UTF-8 text holds this byte.
pub const FIELD_END: u8 = 0xff;

/// Marks an optional field of a track key as missing.
pub const FIELD_MISSING: u8 = 0x00;

/// Marks an optional field of a track key as present.
pub const FIELD_PRESENT: u8 = 0x01;

/// Start value of the FNV-1a hash of 64 bits.
pub const FNV_OFFSET: u64 = 0xcbf2_9ce4_8422_2325;

/// Multiplier of the FNV-1a hash of 64 bits.
pub const FNV_PRIME: u64 = 0x0000_0100_0000_01b3;

/// One text field of a key: its UTF-8 bytes and the closing byte.
pub open spec fn key_of_text(text: Seq<char>) -> Seq<u8> {
    encode_utf8(text).push(FIELD_END)
}

/// The fields of a list of names, one after the other.
pub open spec fn key_of_names(names: Seq<Seq<char>>) -> Seq<u8>
    decreases names.len(),
{
    if names.len() == 0 {
        Seq::empty()
    } else {
        key_of_names(names.drop_last()) + key_of_text(names.last())
    }
}

/// The part of a track key that stands for the album.
pub open spec fn key_of_album(album: Option<Seq<char>>) -> Seq<u8> {
    match album {
        Some(album) => seq![FIELD_PRESENT] + key_of_text(album),
        None => seq![FIELD_MISSING],
    }
}

/// The part of a track key that stands for the artists.
pub open spec fn key_of_artists(artists: Option<Seq<Seq<char>>>) -> Seq<u8> {
    match artists {
        Some(artists) => seq![FIELD_PRESENT] + key_of_names(artists),
        None => seq![FIELD_MISSING],
    }
}

/// The key of a track: title, album and artists, the optional ones behind a
/// marker that tells a missing field from an empty one.
pub open spec fn track_key(meta: TrackMetaView) -> Seq<u8> {
    key_of_text(meta.title) + key_of_album(meta.album) + key_of_artists(meta.artists)
}

/// One round of FNV-1a: mix the byte in, then multiply.
pub open spec fn fnv1a_step(hash: u64, byte: u8) -> u64 {
    (hash ^ (byte as u64)).wrapping_mul(FNV_PRIME)
}

/// The FNV-1a hash of `bytes`, taken from the first byte to the last.
pub open spec fn fnv1a(bytes: Seq<u8>) -> u64
    decreases bytes.len(),
{
    if bytes.len() == 0 {
        FNV_OFFSET
    } else {
        fnv1a_step(fnv1a(bytes.drop_last()), bytes.last())
    }
}

/// The digit for a value below sixteen.
pub open spec fn hex_char(nibble: nat) -> char {
    if nibble == 0 {
        '0'
    } else if nibble == 1 {
        '1'
    } else if nibble == 2 {
        '2'
    } else if nibble == 3 {
        '3'
    } else if nibble == 4 {
        '4'
    } else if nibble == 5 {
        '5'
    } else if nibble == 6 {
        '6'
    } else if nibble == 7 {
        '7'
    } else if nibble == 8 {
        '8'
    } else if nibble == 9 {
        '9'
    } else if nibble == 10 {
        'a'
    } else if nibble == 11 {
        'b'
    } else if nibble == 12 {
        'c'
    } else if nibble == 13 {
        'd'
    } else if nibble == 14 {
        'e'
    } else {
        'f'
    }
}

/// The last `width` hexadecimal digits of `value`, most significant first.
pub open spec fn hex_digits(value: nat, width: nat) -> Seq<char>
    decreases width,
{
    if width == 0 {
        Seq::empty()
    } else {
        hex_digits(value / 16, (width - 1) as nat).push(hex_char(value % 16))
    }
}

/// The cache path of a track, relative to the cache root.
pub open spec fn cache_path_of(meta: TrackMetaView) -> Seq<char> {
    hex_digits(fnv1a(track_key(meta)) as nat, 16) + ".lyric"@
}

/// Appends one text field to `out`.
fn append_text(out: &mut Vec<u8>, text: &String)
    ensures
        final(out)@ == old(out)@ + key_of_text(text@),
{
    append_bytes(out, text.as_str().as_bytes());
    out.push(FIELD_END);
}

/// Appends the fields of `names` to `out`.
fn append_names(out: &mut Vec<u8>, names: &Vec<String>)
    ensures
        final(out)@ == old(out)@ + key_of_names(crate::track::names_view(names@)),
{
    let ghost all = crate::track::names_view(names@);
    let mut i: usize = 0;
    while i < names.len()
        invariant
            i <= names.len(),
            all == crate::track::names_view(names@),
            out@ == old(out)@ + key_of_names(all.take(i as int)),
        decreases names.len() - i,
    {
        append_text(out, &names[i]);
        i += 1;
        assert(all.take(i as int).drop_last() =~= all.take(i - 1));
        assert(all.take(i as int).last() == names[i - 1]@);
    }
    assert(all.take(i as int) =~= all);
}

/// The key of `meta`, as bytes.
pub fn track_key_bytes(meta: &TrackMeta) -> (key: Vec<u8>)
    ensures
        key@ == track_key(meta@),
{
    let mut key: Vec<u8> = Vec::new();
    append_text(&mut key, &meta.title);
    match &meta.album {
        Some(album) => {
            key.push(FIELD_PRESENT);
            append_text(&mut key, album);
        },
        None => {
            key.push(FIELD_MISSING);
        },
    }
    match &meta.artists {
        Some(artists) => {
            key.push(FIELD_PRESENT);
            append_names(&mut key, artists);
        },
        None => {
            key.push(FIELD_MISSING);
        },
    }
    assert(key@ =~= track_key(meta@));
    key
}

/// The FNV-1a hash of `bytes`.
pub fn fnv1a_hash(bytes: &[u8]) -> (hash: u64)
    ensures
        hash == fnv1a(bytes@),
{
    let mut hash: u64 = FNV_OFFSET;
    let mut i: usize = 0;
    while i < bytes.len()
        invariant
            i <= bytes.len(),
            hash == fnv1a(bytes@.take(i as int)),
        decreases bytes.len() - i,
    {
        let byte: u8 = bytes[i];
        hash = (hash ^ (byte as u64)).wrapping_mul(FNV_PRIME);
        i += 1;
        assert(bytes@.take(i as int).drop_last() =~= bytes@.take(i - 1));
    }
    assert(bytes@.take(i as int) =~= bytes@);
    hash
}

/// The text of the digit for `nibble`.
fn hex_digit_text(nibble: u64) -> (text: &'static str)
    requires
        nibble < 16,
    ensures
        text@ == seq![hex_char(nibble as nat)],
{
    proof {
        reveal_strlit("0");
        reveal_strlit("1");
        reveal_strlit("2");
        reveal_strlit("3");
        reveal_strlit("4");
        reveal_strlit("5");
        reveal_strlit("6");
        reveal_strlit("7");
        reveal_strlit("8");
        reveal_strlit("9");
        reveal_strlit("a");
        reveal_strlit("b");
        reveal_strlit("c");
        reveal_strlit("d");
        reveal_strlit("e");
        reveal_strlit("f");
    }
    let text = if nibble == 0 {
        "0"
    } else if nibble == 1 {
        "1"
    } else if nibble == 2 {
        "2"
    } else if nibble == 3 {
        "3"
    } else if nibble == 4 {
        "4"
    } else if nibble == 5 {
        "5"
    } else if nibble == 6 {
        "6"
    } else if nibble == 7 {
        "7"
    } else if nibble == 8 {
        "8"
    } else if nibble == 9 {
        "9"
    } else if nibble == 10 {
        "a"
    } else if nibble == 11 {
        "b"
    } else if nibble == 12 {
        "c"
    } else if nibble == 13 {
        "d"
    } else if nibble == 14 {
        "e"
    } else {
        "f"
    };
    assert(text@ =~= seq![hex_char(nibble as nat)]);
    text
}

/// Appends the last `width` hexadecimal digits of `value` to `text`.
fn append_hex(text: &mut String, value: u64, width: u32)
    ensures
        final(text)@ == old(text)@ + hex_digits(value as nat, width as nat),
    decreases width,
{
    if width > 0 {
        append_hex(text, value / 16, width - 1);
        text.append(hex_digit_text(value % 16));
        assert(text@ =~= old(text)@ + hex_digits(value as nat, width as nat));
    } else {
        assert(text@ =~= old(text)@ + hex_digits(value as nat, width as nat));
    }
}

/// Where the lyric of `meta` is cached, relative to the cache root. Two
/// snapshots with the same fields get the same path.
pub fn get_cache_path(meta: &TrackMeta) -> (path: String)
    ensures
        path@ == cache_path_of(meta@),
{
    let key = track_key_bytes(meta);
    let hash = fnv1a_hash(key.as_slice());
    let mut path = String::new();
    append_hex(&mut path, hash, 16);
    path.append(".lyric");
    assert(path@ =~= cache_path_of(meta@));
    path
}

/// No byte of a UTF-8 scalar is the byte that closes a field.
proof fn lemma_scalar_bytes_are_not_field_end(scalar: u32)
    ensures
        vstd::utf8::leading_byte_width_1(scalar) != FIELD_END,
        vstd::utf8::leading_byte_width_2(scalar) != FIELD_END,
        vstd::utf8::leading_byte_width_3(scalar) != FIELD_END,
        vstd::utf8::leading_byte_width_4(scalar) != FIELD_END,
        vstd::utf8::last_continuation_byte(scalar) != FIELD_END,
        vstd::utf8::second_last_continuation_byte(scalar) != FIELD_END,
        vstd::utf8::third_last_continuation_byte(scalar) != FIELD_END,
{
    assert((scalar & 0x7F) as u8 != 0xffu8) by (bit_vector);
    assert(0xC0u8 | ((scalar >> 6) & 0x1F) as u8 != 0xffu8) by (bit_vector);
    assert(0xE0u8 | ((scalar >> 12) & 0x0F) as u8 != 0xffu8) by (bit_vector);
    assert(0xF0u8 | ((scalar >> 18) & 0x7) as u8 != 0xffu8) by (bit_vector);
    assert(0x80u8 | (scalar & 0x3F) as u8 != 0xffu8) by (bit_vector);
    assert(0x80u8 | ((scalar >> 6) & 0x3F) as u8 != 0xffu8) by (bit_vector);
    assert(0x80u8 | ((scalar >> 12) & 0x3F) as u8 != 0xffu8) by (bit_vector);
}

/// The UTF-8 bytes of a text never hold the byte that closes a field.
pub proof fn lemma_text_has_no_field_end(text: Seq<char>, i: int)
    requires
        0 <= i < encode_utf8(text).len(),
    ensures
        encode_utf8(text)[i] != FIELD_END,
    decreases text.len(),
{
    if text.len() > 0 {
        let head = vstd::utf8::encode_scalar(text[0] as u32);
        lemma_scalar_bytes_are_not_field_end(text[0] as u32);
        if i >= head.len() {
            lemma_text_has_no_field_end(text.drop_first(), i - head.len());
        }
    }
}

/// A text field ends where its closing byte stands: two keys that start with
/// a text field and are equal start with the same text, and go on alike.
pub proof fn lemma_text_field_cancels(
    left: Seq<char>,
    left_rest: Seq<u8>,
    right: Seq<char>,
    right_rest: Seq<u8>,
)
    requires
        key_of_text(left) + left_rest == key_of_text(right) + right_rest,
    ensures
        left == right,
        left_rest == right_rest,
{
    let left_bytes = encode_utf8(left);
    let right_bytes = encode_utf8(right);
    let left_key = key_of_text(left) + left_rest;
    let right_key = key_of_text(right) + right_rest;
    if left_bytes.len() < right_bytes.len() {
        assert(left_key[left_bytes.len() as int] == FIELD_END);
        assert(right_key[left_bytes.len() as int] == right_bytes[left_bytes.len() as int]);
        lemma_text_has_no_field_end(right, left_bytes.len() as int);
    }
    if right_bytes.len() < left_bytes.len() {
        assert(right_key[right_bytes.len() as int] == FIELD_END);
        assert(left_key[right_bytes.len() as int] == left_bytes[right_bytes.len() as int]);
        lemma_text_has_no_field_end(left, right_bytes.len() as int);
    }
    assert forall|i: int| 0 <= i < left_bytes.len() implies left_bytes[i] == right_bytes[i] by {
        assert(left_key[i] == left_bytes[i]);
        assert(right_key[i] == right_bytes[i]);
    }
    assert(left_bytes =~= right_bytes);
    vstd::utf8::encode_utf8_decode_utf8(left);
    vstd::utf8::encode_utf8_decode_utf8(right);
    assert(left_key.len() == left_bytes.len() + 1 + left_rest.len());
    assert(right_key.len() == right_bytes.len() + 1 + right_rest.len());
    assert(left_rest.len() == right_rest.len());
    assert forall|i: int| 0 <= i < left_rest.len() implies left_rest[i] == right_rest[i] by {
        assert(left_key[left_bytes.len() + 1 + i] == left_rest[i]);
        assert(right_key[right_bytes.len() + 1 + i] == right_rest[i]);
    }
    assert(left_rest =~= right_rest);
}

/// The fields of a list of names start with the field of the first name.
proof fn lemma_key_of_names_front(names: Seq<Seq<char>>)
    requires
        names.len() > 0,
    ensures
        key_of_names(names) == key_of_text(names.first()) + key_of_names(names.drop_first()),
    decreases names.len(),
{
    if names.len() == 1 {
        assert(names.drop_last() =~= Seq::<Seq<char>>::empty());
        assert(names.drop_first() =~= Seq::<Seq<char>>::empty());
        assert(key_of_names(names) =~= key_of_text(names.first()) + key_of_names(
            names.drop_first(),
        ));
    } else {
        lemma_key_of_names_front(names.drop_last());
        assert(names.drop_last().drop_first() =~= names.drop_first().drop_last());
        assert(names.drop_last().first() == names.first());
        assert(names.drop_first().last() == names.last());
        assert(key_of_names(names) =~= key_of_text(names.first()) + key_of_names(
            names.drop_first(),
        ));
    }
}

/// Two lists of names with the same fields are the same list.
pub proof fn lemma_key_of_names_injective(left: Seq<Seq<char>>, right: Seq<Seq<char>>)
    requires
        key_of_names(left) == key_of_names(right),
    ensures
        left == right,
    decreases left.len(),
{
    if left.len() == 0 {
        if right.len() > 0 {
            lemma_key_of_names_front(right);
            assert(key_of_names(right).len() > 0);
        }
        assert(left =~= right);
    } else {
        lemma_key_of_names_front(left);
        if right.len() == 0 {
            assert(key_of_names(left).len() > 0);
        } else {
            lemma_key_of_names_front(right);
            lemma_text_field_cancels(
                left.first(),
                key_of_names(left.drop_first()),
                right.first(),
                key_of_names(right.drop_first()),
            );
            lemma_key_of_names_injective(left.drop_first(), right.drop_first());
            assert(left =~= seq![left.first()] + left.drop_first());
            assert(right =~= seq![right.first()] + right.drop_first());
        }
    }
}

/// Tracks that differ in any field have different keys. So two tracks share
/// a cache path only where their keys have the same hash.
pub proof fn lemma_track_key_injective(left: TrackMetaView, right: TrackMetaView)
    requires
        track_key(left) == track_key(right),
    ensures
        left == right,
{
    let left_tail = key_of_album(left.album) + key_of_artists(left.artists);
    let right_tail = key_of_album(right.album) + key_of_artists(right.artists);
    assert(track_key(left) =~= key_of_text(left.title) + left_tail);
    assert(track_key(right) =~= key_of_text(right.title) + right_tail);
    lemma_text_field_cancels(left.title, left_tail, right.title, right_tail);
    assert(left_tail[0] == right_tail[0]);
    let left_artists = key_of_artists(left.artists);
    let right_artists = key_of_artists(right.artists);
    match (left.album, right.album) {
        (Some(left_album), Some(right_album)) => {
            assert(left_tail.skip(1) =~= key_of_text(left_album) + left_artists);
            assert(right_tail.skip(1) =~= key_of_text(right_album) + right_artists);
            lemma_text_field_cancels(left_album, left_artists, right_album, right_artists);
        },
        (None, None) => {
            assert(left_tail.skip(1) =~= left_artists);
            assert(right_tail.skip(1) =~= right_artists);
        },
        _ => {
            assert(left_tail[0] != right_tail[0]);
        },
    }
    assert(left_artists[0] == right_artists[0]);
    match (left.artists, right.artists) {
        (Some(left_names), Some(right_names)) => {
            assert(left_artists.skip(1) =~= key_of_names(left_names));
            assert(right_artists.skip(1) =~= key_of_names(right_names));
            lemma_key_of_names_injective(left_names, right_names);
        },
        (None, None) => {},
        _ => {
            assert(left_artists[0] != right_artists[0]);
        },
    }
    assert(left =~= right);
}

/// The cache could not be read or written.
#[derive(Clone, Copy, Debug, PartialEq, Eq)]
pub struct IoError;

/// The pair that a read of the cache brought: the one that the bytes are the
/// entry of. A read that failed and bytes that are no entry both count as a
/// miss.
pub fn load_lyric_cache(read: Result<Vec<u8>, IoError>) -> (entry: Option<LyricPair>)
    ensures
        view_of_entry(entry) == match read {
            Ok(bytes) => decode_pair(bytes@),
            Err(_) => None,
        },
{
    match read {
        Ok(bytes) => decode_lyric_pair(bytes.as_slice()),
        Err(_) => None,
    }
}

/// The cache after `pair` was stored at `path`: its entry stands there, in
/// place of what was there before.
pub open spec fn cache_after_update(
    files: Map<Seq<char>, Seq<u8>>,
    path: Seq<char>,
    pair: LyricPairView,
) -> Map<Seq<char>, Seq<u8>> {
    files.insert(path, encode_pair(pair))
}

/// The pair that a cache holds at `path`, `None` where it holds no file
/// there or one that is no entry.
pub open spec fn cache_lookup(files: Map<Seq<char>, Seq<u8>>, path: Seq<char>) -> Option<
    LyricPairView,
> {
    if files.contains_key(path) {
        decode_pair(files[path])
    } else {
        None
    }
}

/// Round trip: a pair stored at a path is the pair loaded from that path,
/// whatever the pair holds and whatever the cache held before; the entries at
/// other paths stay.
pub proof fn lemma_load_after_update(
    files: Map<Seq<char>, Seq<u8>>,
    path: Seq<char>,
    pair: LyricPairView,
    other: Seq<char>,
)
    requires
        pair_fits(pair),
    ensures
        cache_lookup(cache_after_update(files, path, pair), path) == Some(pair),
        other != path ==> cache_lookup(cache_after_update(files, path, pair), other)
            == cache_lookup(files, other),
{
    crate::codec::lemma_decode_encode(pair);
}

} // verus!
