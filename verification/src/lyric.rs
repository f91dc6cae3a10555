//! Lyric contents: the lyric of a track in its own language, and translated.

use vstd::prelude::*;

verus! {

/// Mathematical value of a [`LyricLine`].
#[verifier::ext_equal]
pub struct LyricLineView {
    pub start_ms: u64,
    pub text: Seq<char>,
}

/// Mathematical value of a [`LyricContent`].
#[verifier::ext_equal]
pub enum LyricContentView {
    Absent,
    LineTimestamp(Seq<LyricLineView>),
    PlainText(Seq<char>),
}

/// Mathematical value of a [`LyricPair`].
#[verifier::ext_equal]
pub struct LyricPairView {
    pub origin: LyricContentView,
    pub translation: LyricContentView,
}

impl LyricContentView {
    /// A content has something to show when it holds at least one line or
    /// one character of plain text.
    pub open spec fn has_content(self) -> bool {
        match self {
            LyricContentView::Absent => false,
            LyricContentView::LineTimestamp(lines) => lines.len() > 0,
            LyricContentView::PlainText(text) => text.len() > 0,
        }
    }
}

impl LyricPairView {
    /// The pair that stands for "nothing was found": no content on either side.
    pub open spec fn empty() -> LyricPairView {
        LyricPairView { origin: LyricContentView::Absent, translation: LyricContentView::Absent }
    }

    /// The pair left behind by a removal: a timed lyric without lines, and no
    /// translation.
    pub open spec fn cleared() -> LyricPairView {
        LyricPairView {
            origin: LyricContentView::LineTimestamp(Seq::empty()),
            translation: LyricContentView::Absent,
        }
    }

    /// A pair has something to show when either half has.
    pub open spec fn has_content(self) -> bool {
        self.origin.has_content() || self.translation.has_content()
    }
}

/// One line of a time-synced lyric: the text shown from `start_ms`
/// milliseconds into the track.
#[derive(Debug, PartialEq, Eq)]
pub struct LyricLine {
    pub start_ms: u64,
    pub text: String,
}

impl View for LyricLine {
    type V = LyricLineView;

    open spec fn view(&self) -> LyricLineView {
        LyricLineView { start_ms: self.start_ms, text: self.text@ }
    }
}

/// The values of a sequence of lines, in order.
pub open spec fn lines_view(lines: Seq<LyricLine>) -> Seq<LyricLineView> {
    Seq::new(lines.len(), |i: int| lines[i]@)
}

impl Clone for LyricLine {
    fn clone(&self) -> (copy: LyricLine)
        ensures
            copy@ == self@,
    {
        LyricLine { start_ms: self.start_ms, text: self.text.clone() }
    }
}

/// One half of a lyric pair.
#[derive(Debug, PartialEq, Eq)]
pub enum LyricContent {
    /// No content.
    Absent,
    /// Time-synced lines, in the order in which they were given.
    LineTimestamp(Vec<LyricLine>),
    /// Text without timestamps.
    PlainText(String),
}

impl View for LyricContent {
    type V = LyricContentView;

    open spec fn view(&self) -> LyricContentView {
        match self {
            LyricContent::Absent => LyricContentView::Absent,
            LyricContent::LineTimestamp(lines) => LyricContentView::LineTimestamp(
                lines_view(lines@),
            ),
            LyricContent::PlainText(text) => LyricContentView::PlainText(text@),
        }
    }
}

/// A copy of `lines`, line by line.
pub fn clone_lines(lines: &Vec<LyricLine>) -> (copy: Vec<LyricLine>)
    ensures
        lines_view(copy@) == lines_view(lines@),
{
    let mut copy: Vec<LyricLine> = Vec::new();
    let mut i: usize = 0;
    while i < lines.len()
        invariant
            i <= lines.len(),
            copy.len() == i,
            forall|k: int| 0 <= k < i ==> copy[k]@ == lines[k]@,
        decreases lines.len() - i,
    {
        copy.push(lines[i].clone());
        i += 1;
    }
    assert(lines_view(copy@) =~= lines_view(lines@));
    copy
}

impl Clone for LyricContent {
    fn clone(&self) -> (copy: LyricContent)
        ensures
            copy@ == self@,
    {
        match self {
            LyricContent::Absent => LyricContent::Absent,
            LyricContent::LineTimestamp(lines) => LyricContent::LineTimestamp(clone_lines(lines)),
            LyricContent::PlainText(text) => LyricContent::PlainText(text.clone()),
        }
    }
}

impl LyricContent {
    /// Whether there is at least one line or one character to show.
    pub fn has_content(&self) -> (shown: bool)
        ensures
            shown == self@.has_content(),
    {
        match self {
            LyricContent::Absent => false,
            LyricContent::LineTimestamp(lines) => lines.len() > 0,
            LyricContent::PlainText(text) => !text.as_str().is_empty(),
        }
    }
}

/// The lyric of a track: the text in its own language and translated, each
/// with its own kind of content.
#[derive(Debug, PartialEq, Eq)]
pub struct LyricPair {
    pub origin: LyricContent,
    pub translation: LyricContent,
}

impl View for LyricPair {
    type V = LyricPairView;

    open spec fn view(&self) -> LyricPairView {
        LyricPairView { origin: self.origin@, translation: self.translation@ }
    }
}

impl Clone for LyricPair {
    fn clone(&self) -> (copy: LyricPair)
        ensures
            copy@ == self@,
    {
        LyricPair { origin: self.origin.clone(), translation: self.translation.clone() }
    }
}

impl LyricPair {
    /// The pair that stands for "nothing was found".
    pub fn empty() -> (pair: LyricPair)
        ensures
            pair@ == LyricPairView::empty(),
    {
        LyricPair { origin: LyricContent::Absent, translation: LyricContent::Absent }
    }

    /// The pair left behind by a removal.
    pub fn cleared() -> (pair: LyricPair)
        ensures
            pair@ == LyricPairView::cleared(),
    {
        let pair = LyricPair {
            origin: LyricContent::LineTimestamp(Vec::new()),
            translation: LyricContent::Absent,
        };
        assert(lines_view(Seq::<LyricLine>::empty()) =~= Seq::<LyricLineView>::empty());
        pair
    }

    /// Whether either half has something to show.
    pub fn has_content(&self) -> (shown: bool)
        ensures
            shown == self@.has_content(),
    {
        self.origin.has_content() || self.translation.has_content()
    }
}

/// The value of an optional pair.
pub open spec fn view_of_entry(entry: Option<LyricPair>) -> Option<LyricPairView> {
    match entry {
        Some(pair) => Some(pair@),
        None => None,
    }
}

} // verus!
