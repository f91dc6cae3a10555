use lyric_sync::codec::{decode_lyric_pair, encode_lyric_pair};
use lyric_sync::lyric::{LyricContent, LyricLine, LyricPair};

fn line(start_ms: u64, text: &str) -> LyricLine {
    LyricLine { start_ms, text: text.to_string() }
}

fn round_trip(pair: LyricPair) {
    let entry = encode_lyric_pair(&pair);
    assert_eq!(decode_lyric_pair(&entry), Some(pair));
}

#[test]
fn entry_of_cleared_pair() {
    assert_eq!(encode_lyric_pair(&LyricPair::cleared()), vec![1, 0, 0, 0, 0, 0, 0, 0, 0, 0]);
}

#[test]
fn entry_of_empty_pair() {
    assert_eq!(encode_lyric_pair(&LyricPair::empty()), vec![0, 0]);
}

#[test]
fn entry_of_one_line() {
    let pair = LyricPair {
        origin: LyricContent::LineTimestamp(vec![line(0x0102, "la")]),
        translation: LyricContent::PlainText("é".to_string()),
    };
    let expected: Vec<u8> = vec![
        1, // timed lines
        1, 0, 0, 0, 0, 0, 0, 0, // one line
        2, 1, 0, 0, 0, 0, 0, 0, // start
        2, 0, 0, 0, 0, 0, 0, 0, // two bytes of text
        b'l', b'a', //
        2, // plain text
        2, 0, 0, 0, 0, 0, 0, 0, // two bytes of text
        0xc3, 0xa9,
    ];
    assert_eq!(encode_lyric_pair(&pair), expected);
    assert_eq!(decode_lyric_pair(&expected), Some(pair));
}

#[test]
fn round_trip_cleared_pair() {
    round_trip(LyricPair::cleared());
    round_trip(LyricPair {
        origin: LyricContent::LineTimestamp(vec![]),
        translation: LyricContent::Absent,
    });
}

#[test]
fn round_trip_empty_pair() {
    round_trip(LyricPair::empty());
}

#[test]
fn round_trip_every_kind_of_content() {
    let contents = || {
        vec![
            LyricContent::Absent,
            LyricContent::LineTimestamp(vec![]),
            LyricContent::LineTimestamp(vec![line(0, "la")]),
            LyricContent::LineTimestamp(vec![
                line(0, ""),
                line(1500, "first line"),
                line(u64::MAX, "最後の行 🎵"),
            ]),
            LyricContent::PlainText(String::new()),
            LyricContent::PlainText("no\ntimestamps\there".to_string()),
        ]
    };
    for origin in contents() {
        for translation in contents() {
            round_trip(LyricPair { origin: origin.clone(), translation });
        }
    }
}

#[test]
fn round_trip_many_lines() {
    let lines: Vec<LyricLine> =
        (0..500u64).map(|i| line(i * 1000, &format!("line number {}", i))).collect();
    round_trip(LyricPair {
        origin: LyricContent::LineTimestamp(lines),
        translation: LyricContent::PlainText("t".to_string()),
    });
}

#[test]
fn decode_rejects_nothing_at_all() {
    assert_eq!(decode_lyric_pair(&[]), None);
}

#[test]
fn decode_rejects_missing_translation() {
    assert_eq!(decode_lyric_pair(&[0]), None);
}

#[test]
fn decode_rejects_unknown_tag() {
    assert_eq!(decode_lyric_pair(&[3, 0]), None);
    assert_eq!(decode_lyric_pair(&[0, 255]), None);
}

#[test]
fn decode_rejects_trailing_bytes() {
    assert_eq!(decode_lyric_pair(&[0, 0, 0]), None);
    let mut entry = encode_lyric_pair(&LyricPair::cleared());
    entry.push(0);
    assert_eq!(decode_lyric_pair(&entry), None);
}

#[test]
fn decode_rejects_every_cut() {
    let pair = LyricPair {
        origin: LyricContent::LineTimestamp(vec![line(7, "la"), line(9, "li")]),
        translation: LyricContent::PlainText("tr".to_string()),
    };
    let entry = encode_lyric_pair(&pair);
    for cut in 0..entry.len() {
        assert_eq!(decode_lyric_pair(&entry[..cut]), None);
    }
    assert_eq!(decode_lyric_pair(&entry), Some(pair));
}

#[test]
fn decode_rejects_count_beyond_the_bytes() {
    // three lines announced, none given
    assert_eq!(decode_lyric_pair(&[1, 3, 0, 0, 0, 0, 0, 0, 0, 0]), None);
    // as many lines announced as a number can say
    assert_eq!(decode_lyric_pair(&[1, 255, 255, 255, 255, 255, 255, 255, 255, 0]), None);
}

#[test]
fn decode_rejects_size_beyond_the_bytes() {
    assert_eq!(decode_lyric_pair(&[2, 5, 0, 0, 0, 0, 0, 0, 0, b'a', 0]), None);
    assert_eq!(decode_lyric_pair(&[2, 255, 255, 255, 255, 255, 255, 255, 255, 0]), None);
}

#[test]
fn decode_rejects_text_that_is_not_utf8() {
    assert_eq!(decode_lyric_pair(&[2, 1, 0, 0, 0, 0, 0, 0, 0, 0xff, 0]), None);
    assert_eq!(decode_lyric_pair(&[2, 2, 0, 0, 0, 0, 0, 0, 0, 0xc3, 0x28, 0]), None);
    // a surrogate, and an overlong form
    assert_eq!(decode_lyric_pair(&[2, 3, 0, 0, 0, 0, 0, 0, 0, 0xed, 0xa0, 0x80, 0]), None);
    assert_eq!(decode_lyric_pair(&[2, 2, 0, 0, 0, 0, 0, 0, 0, 0xc0, 0x80, 0]), None);
}

#[test]
fn decode_reads_text_as_utf8() {
    let decoded = decode_lyric_pair(&[2, 3, 0, 0, 0, 0, 0, 0, 0, 0xe2, 0x99, 0xaa, 0]);
    assert_eq!(
        decoded,
        Some(LyricPair {
            origin: LyricContent::PlainText("♪".to_string()),
            translation: LyricContent::Absent,
        })
    );
}
