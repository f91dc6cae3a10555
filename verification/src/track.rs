//! Track metadata: what identifies the track that a player is playing.

use vstd::prelude::*;

verus! {

/// Mathematical value of a [`TrackMeta`].
#[verifier::ext_equal]
pub struct TrackMetaView {
    pub title: Seq<char>,
    pub album: Option<Seq<char>>,
    pub artists: Option<Seq<Seq<char>>>,
}

/// The texts of a sequence of strings, in order.
pub open spec fn names_view(names: Seq<String>) -> Seq<Seq<char>> {
    Seq::new(names.len(), |i: int| names[i]@)
}

/// Snapshot of the fields that identify a track, taken when the player
/// reports it. A player may leave out the album and the artists.
#[derive(Debug)]
pub struct TrackMeta {
    pub title: String,
    pub album: Option<String>,
    pub artists: Option<Vec<String>>,
}

impl View for TrackMeta {
    type V = TrackMetaView;

    open spec fn view(&self) -> TrackMetaView {
        TrackMetaView {
            title: self.title@,
            album: match self.album {
                Some(album) => Some(album@),
                None => None,
            },
            artists: match self.artists {
                Some(artists) => Some(names_view(artists@)),
                None => None,
            },
        }
    }
}

/// A copy of `names`, string by string.
pub fn clone_names(names: &Vec<String>) -> (copy: Vec<String>)
    ensures
        names_view(copy@) == names_view(names@),
{
    let mut copy: Vec<String> = Vec::new();
    let mut i: usize = 0;
    while i < names.len()
        invariant
            i <= names.len(),
            copy.len() == i,
            forall|k: int| 0 <= k < i ==> copy[k]@ == names[k]@,
        decreases names.len() - i,
    {
        copy.push(names[i].clone());
        i += 1;
    }
    assert(names_view(copy@) =~= names_view(names@));
    copy
}

/// Whether two lists hold the same strings in the same order.
pub fn same_names(left: &Vec<String>, right: &Vec<String>) -> (same: bool)
    ensures
        same == (names_view(left@) == names_view(right@)),
{
    if left.len() != right.len() {
        assert(names_view(left@).len() != names_view(right@).len());
        return false;
    }
    let mut i: usize = 0;
    while i < left.len()
        invariant
            i <= left.len(),
            left.len() == right.len(),
            forall|k: int| 0 <= k < i ==> left[k]@ == right[k]@,
        decreases left.len() - i,
    {
        if left[i] != right[i] {
            assert(names_view(left@)[i as int] != names_view(right@)[i as int]);
            return false;
        }
        i += 1;
    }
    assert(names_view(left@) =~= names_view(right@));
    true
}

impl Clone for TrackMeta {
    fn clone(&self) -> (copy: TrackMeta)
        ensures
            copy@ == self@,
    {
        TrackMeta {
            title: self.title.clone(),
            album: match &self.album {
                Some(album) => Some(album.clone()),
                None => None,
            },
            artists: match &self.artists {
                Some(artists) => Some(clone_names(artists)),
                None => None,
            },
        }
    }
}

impl PartialEq for TrackMeta {
    fn eq(&self, other: &TrackMeta) -> (same: bool) {
        let same_title = self.title == other.title;
        let same_album = match (&self.album, &other.album) {
            (Some(left), Some(right)) => *left == *right,
            (None, None) => true,
            _ => false,
        };
        let same_artists = match (&self.artists, &other.artists) {
            (Some(left), Some(right)) => same_names(left, right),
            (None, None) => true,
            _ => false,
        };
        proof {
            assert(same_title == (self@.title == other@.title));
            assert(same_album == (self@.album == other@.album));
            assert(same_artists == (self@.artists == other@.artists));
            if same_title && same_album && same_artists {
                assert(self@ =~= other@);
            }
        }
        same_title && same_album && same_artists
    }
}

impl vstd::std_specs::cmp::PartialEqSpecImpl for TrackMeta {
    open spec fn obeys_eq_spec() -> bool {
        true
    }

    open spec fn eq_spec(&self, other: &TrackMeta) -> bool {
        self@ == other@
    }
}

impl Eq for TrackMeta {}

/// Mathematical value of a [`SearchQuery`].
#[verifier::ext_equal]
pub struct SearchQueryView {
    pub album: Seq<char>,
    pub artists: Seq<Seq<char>>,
    pub title: Seq<char>,
}

/// What a lyric provider is asked for. Every field is present: a track
/// without album or artists is searched with an empty album and no artist.
#[derive(Debug, PartialEq, Eq)]
pub struct SearchQuery {
    pub album: String,
    pub artists: Vec<String>,
    pub title: String,
}

impl View for SearchQuery {
    type V = SearchQueryView;

    open spec fn view(&self) -> SearchQueryView {
        SearchQueryView {
            album: self.album@,
            artists: names_view(self.artists@),
            title: self.title@,
        }
    }
}

impl Clone for SearchQuery {
    fn clone(&self) -> (copy: SearchQuery)
        ensures
            copy@ == self@,
    {
        SearchQuery {
            album: self.album.clone(),
            artists: clone_names(&self.artists),
            title: self.title.clone(),
        }
    }
}

impl TrackMetaView {
    /// The query for this track: the fields as they are, an empty album and
    /// an empty list of artists where the track has none.
    pub open spec fn search_query(self) -> SearchQueryView {
        SearchQueryView {
            album: match self.album {
                Some(album) => album,
                None => Seq::empty(),
            },
            artists: match self.artists {
                Some(artists) => artists,
                None => Seq::empty(),
            },
            title: self.title,
        }
    }
}

/// The query made of the given fields.
pub fn default_search_query(album: &str, artists: &Vec<String>, title: &str) -> (query:
    SearchQuery)
    ensures
        query@ == (SearchQueryView {
            album: album@,
            artists: names_view(artists@),
            title: title@,
        }),
{
    SearchQuery {
        album: album.to_owned(),
        artists: clone_names(artists),
        title: title.to_owned(),
    }
}

impl TrackMeta {
    /// The query by which the lyric of this track is searched.
    pub fn search_query(&self) -> (query: SearchQuery)
        ensures
            query@ == self@.search_query(),
    {
        let no_artists: Vec<String> = Vec::new();
        let album: &str = match &self.album {
            Some(album) => album.as_str(),
            None => "",
        };
        let artists: &Vec<String> = match &self.artists {
            Some(artists) => artists,
            None => &no_artists,
        };
        proof {
            reveal_strlit("");
            assert(""@ =~= Seq::<char>::empty());
            assert(names_view(no_artists@) =~= Seq::<Seq<char>>::empty());
        }
        default_search_query(album, artists, self.title.as_str())
    }
}

} // verus!
