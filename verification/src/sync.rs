//! The playback state and its transitions.
//!
//! [`PlaybackState`] holds the connected player, the track in play and the
//! lyric on display. Every trigger of the event loop is one call of a
//! transition; the transition changes the registers and hands back, as
//! [`Effects`], what the caller has to carry out: tell the presentation layer,
//! write a cache entry, start a resolution, open the search prompt. A
//! resolution runs outside the loop and comes back as one more transition,
//! [`PlaybackState::resolve_completed`], tagged with the track it was started
//! for.

use crate::cache::{cache_path_of, get_cache_path};
use crate::lyric::{LyricPair, LyricPairView};
use crate::track::{SearchQuery, SearchQueryView, TrackMeta, TrackMetaView};
use vstd::prelude::*;

verus! {

/// A player finder knows no player of the given name.
#[derive(Clone, Copy, Debug, PartialEq, Eq)]
pub struct NotFound;

/// A resolution ended without a lyric pair.
#[derive(Clone, Copy, Debug, PartialEq, Eq)]
pub struct ResolveError;

/// Why a connection was not made.
#[derive(Debug, PartialEq, Eq)]
pub enum ConnectError {
    /// No player of this name was found.
    NotFound { player_id: String },
}

/// Looks players up by name.
pub trait PlayerFinder {
    /// The handle by which a found player is reached.
    type Handle;

    /// The player of the given name.
    fn find_by_name(&self, player_id: &str) -> Result<Self::Handle, NotFound>;
}

/// Mathematical value of a [`TrackState`].
#[verifier::ext_equal]
pub struct TrackStateView {
    pub metainfo: Option<TrackMetaView>,
    pub cache_path: Option<Seq<char>>,
}

/// The track in play, and where its lyric is cached.
#[derive(Debug, PartialEq, Eq)]
pub struct TrackState {
    /// The track, or `None` while no track is known.
    pub metainfo: Option<TrackMeta>,
    /// The cache path of the track, or `None` without caching.
    pub cache_path: Option<String>,
}

impl View for TrackState {
    type V = TrackStateView;

    open spec fn view(&self) -> TrackStateView {
        TrackStateView {
            metainfo: view_of_meta(self.metainfo),
            cache_path: match self.cache_path {
                Some(path) => Some(path@),
                None => None,
            },
        }
    }
}

impl TrackStateView {
    /// A cache path stands only beside a track, and it is the path of that
    /// track.
    pub open spec fn wf(self) -> bool {
        match self.cache_path {
            Some(path) => match self.metainfo {
                Some(meta) => path == cache_path_of(meta),
                None => false,
            },
            None => true,
        }
    }
}

/// The cache path that belongs to a track: that of its metadata where caching
/// is on and a track is known, none otherwise.
pub open spec fn derived_cache_path(caching: bool, meta: Option<TrackMetaView>) -> Option<
    Seq<char>,
> {
    match meta {
        Some(meta) => if caching {
            Some(cache_path_of(meta))
        } else {
            None
        },
        None => None,
    }
}

/// What the presentation layer is told.
#[derive(Debug, PartialEq, Eq)]
pub enum Notification {
    /// Show this lyric.
    Updated(LyricPair),
    /// Show no lyric.
    Cleared,
}

/// Mathematical value of a [`Notification`].
#[verifier::ext_equal]
pub enum NotificationView {
    Updated(LyricPairView),
    Cleared,
}

impl View for Notification {
    type V = NotificationView;

    open spec fn view(&self) -> NotificationView {
        match self {
            Notification::Updated(pair) => NotificationView::Updated(pair@),
            Notification::Cleared => NotificationView::Cleared,
        }
    }
}

/// A cache entry to write: the pair to store, and the path to store it at.
#[derive(Debug, PartialEq, Eq)]
pub struct CacheWrite {
    pub path: String,
    pub pair: LyricPair,
}

/// Mathematical value of a [`CacheWrite`].
#[verifier::ext_equal]
pub struct CacheWriteView {
    pub path: Seq<char>,
    pub pair: LyricPairView,
}

impl View for CacheWrite {
    type V = CacheWriteView;

    open spec fn view(&self) -> CacheWriteView {
        CacheWriteView { path: self.path@, pair: self.pair@ }
    }
}

/// A resolution to start. Its result goes to
/// [`PlaybackState::resolve_completed`] together with `track`.
#[derive(Debug, PartialEq, Eq)]
pub struct ResolveRequest {
    /// The track whose lyric is wanted.
    pub track: TrackMeta,
    /// Where the cache may hold the lyric.
    pub cache_path: Option<String>,
    /// Whether to pass over the cache and ask the providers.
    pub force_refetch: bool,
}

/// Mathematical value of a [`ResolveRequest`].
#[verifier::ext_equal]
pub struct ResolveRequestView {
    pub track: TrackMetaView,
    pub cache_path: Option<Seq<char>>,
    pub force_refetch: bool,
}

impl View for ResolveRequest {
    type V = ResolveRequestView;

    open spec fn view(&self) -> ResolveRequestView {
        ResolveRequestView {
            track: self.track@,
            cache_path: match self.cache_path {
                Some(path) => Some(path@),
                None => None,
            },
            force_refetch: self.force_refetch,
        }
    }
}

/// The search prompt to open, with the query to start from where a track is
/// known.
#[derive(Debug, PartialEq, Eq)]
pub struct SearchPrompt {
    pub query: Option<SearchQuery>,
}

/// Mathematical value of a [`SearchPrompt`].
#[verifier::ext_equal]
pub struct SearchPromptView {
    pub query: Option<SearchQueryView>,
}

impl View for SearchPrompt {
    type V = SearchPromptView;

    open spec fn view(&self) -> SearchPromptView {
        SearchPromptView { query: view_of_query(self.query) }
    }
}

/// What a transition leaves for its caller to carry out. Each part occurs at
/// most once.
#[derive(Debug, PartialEq, Eq)]
pub struct Effects {
    pub notification: Option<Notification>,
    pub cache_write: Option<CacheWrite>,
    pub resolve: Option<ResolveRequest>,
    pub search: Option<SearchPrompt>,
}

/// Mathematical value of an [`Effects`].
#[verifier::ext_equal]
pub struct EffectsView {
    pub notification: Option<NotificationView>,
    pub cache_write: Option<CacheWriteView>,
    pub resolve: Option<ResolveRequestView>,
    pub search: Option<SearchPromptView>,
}

impl View for Effects {
    type V = EffectsView;

    open spec fn view(&self) -> EffectsView {
        EffectsView {
            notification: match self.notification {
                Some(notification) => Some(notification@),
                None => None,
            },
            cache_write: match self.cache_write {
                Some(write) => Some(write@),
                None => None,
            },
            resolve: match self.resolve {
                Some(request) => Some(request@),
                None => None,
            },
            search: match self.search {
                Some(prompt) => Some(prompt@),
                None => None,
            },
        }
    }
}

impl EffectsView {
    /// Nothing to carry out.
    pub open spec fn nothing() -> EffectsView {
        EffectsView { notification: None, cache_write: None, resolve: None, search: None }
    }
}

impl Effects {
    /// Nothing to carry out.
    pub fn nothing() -> (effects: Effects)
        ensures
            effects@ == EffectsView::nothing(),
    {
        Effects { notification: None, cache_write: None, resolve: None, search: None }
    }
}

/// The value of an optional track.
pub open spec fn view_of_meta(meta: Option<TrackMeta>) -> Option<TrackMetaView> {
    match meta {
        Some(meta) => Some(meta@),
        None => None,
    }
}

/// The value of the result of a resolution.
pub open spec fn view_of_outcome(outcome: Result<LyricPair, ResolveError>) -> Result<
    LyricPairView,
    ResolveError,
> {
    match outcome {
        Ok(pair) => Ok(pair@),
        Err(error) => Err(error),
    }
}

/// The value of an optional query.
pub open spec fn view_of_query(query: Option<SearchQuery>) -> Option<SearchQueryView> {
    match query {
        Some(query) => Some(query@),
        None => None,
    }
}

/// One input of the state machine: a trigger of the event loop together with
/// what the outside world answered to it.
#[derive(Debug)]
pub enum Event<P> {
    /// The user asked to connect to a player; `found` is the finder's answer.
    Connect { player_id: String, found: Result<P, NotFound> },
    /// The user, or a signal to the process, asked to disconnect.
    Disconnect,
    /// The player reports another track, or none.
    TrackChanged { meta: Option<TrackMeta> },
    /// The user asked to fetch the lyric again.
    Refetch,
    /// The user asked to remove the lyric.
    Remove,
    /// The user asked for the search prompt.
    Search,
    /// A resolution started for `track` has ended.
    Resolved { track: TrackMeta, outcome: Result<LyricPair, ResolveError> },
}

/// Mathematical value of an [`Event`].
pub enum EventView<P> {
    Connect { player_id: Seq<char>, found: Result<P, NotFound> },
    Disconnect,
    TrackChanged { meta: Option<TrackMetaView> },
    Refetch,
    Remove,
    Search,
    Resolved { track: TrackMetaView, outcome: Result<LyricPairView, ResolveError> },
}

impl<P> View for Event<P> {
    type V = EventView<P>;

    open spec fn view(&self) -> EventView<P> {
        match self {
            Event::Connect { player_id, found } => EventView::Connect {
                player_id: player_id@,
                found: *found,
            },
            Event::Disconnect => EventView::Disconnect,
            Event::TrackChanged { meta } => EventView::TrackChanged { meta: view_of_meta(*meta) },
            Event::Refetch => EventView::Refetch,
            Event::Remove => EventView::Remove,
            Event::Search => EventView::Search,
            Event::Resolved { track, outcome } => EventView::Resolved {
                track: track@,
                outcome: view_of_outcome(*outcome),
            },
        }
    }
}

/// The three states of a connection.
#[derive(Clone, Copy, Debug, PartialEq, Eq)]
pub enum Phase {
    /// No player is connected.
    Disconnected,
    /// A player is connected and no track is known.
    ConnectedNoTrack,
    /// A player is connected and a track is known.
    ConnectedPlaying,
}

/// Mathematical value of a [`PlaybackState`].
pub struct PlaybackView<P> {
    pub player: Option<P>,
    pub track: TrackStateView,
    pub lyric: LyricPairView,
    pub caching: bool,
}

impl<P> PlaybackView<P> {
    /// The state at process start: no player, no track, no lyric.
    pub open spec fn initial(caching: bool) -> PlaybackView<P> {
        PlaybackView {
            player: None,
            track: TrackStateView { metainfo: None, cache_path: None },
            lyric: LyricPairView::empty(),
            caching,
        }
    }

    /// The cache path is the one that belongs to the track: with caching on
    /// every track has its path, and without caching none has.
    pub open spec fn wf(self) -> bool {
        self.track.cache_path == derived_cache_path(self.caching, self.track.metainfo)
    }

    /// The state of the connection.
    pub open spec fn phase(self) -> Phase {
        if self.player is None {
            Phase::Disconnected
        } else if self.track.metainfo is None {
            Phase::ConnectedNoTrack
        } else {
            Phase::ConnectedPlaying
        }
    }

    /// After a lookup: the found player takes the place of any other; a
    /// failed lookup changes nothing.
    pub open spec fn connect(self, found: Result<P, NotFound>) -> PlaybackView<P> {
        match found {
            Ok(handle) => PlaybackView { player: Some(handle), ..self },
            Err(_) => self,
        }
    }

    /// After a disconnect: no player; track and lyric stay.
    pub open spec fn disconnect(self) -> PlaybackView<P> {
        PlaybackView { player: None, ..self }
    }

    /// After a track change: the reported track, with its cache path; player
    /// and lyric stay.
    pub open spec fn track_changed(self, meta: Option<TrackMetaView>) -> PlaybackView<P> {
        PlaybackView {
            track: TrackStateView {
                metainfo: meta,
                cache_path: derived_cache_path(self.caching, meta),
            },
            ..self
        }
    }

    /// What a track change asks for: to show the lyric in place, and, where a
    /// track is reported, to resolve its lyric, the cache allowed.
    pub open spec fn track_changed_effects(self, meta: Option<TrackMetaView>) -> EffectsView {
        EffectsView {
            notification: Some(NotificationView::Updated(self.lyric)),
            cache_write: None,
            resolve: match meta {
                Some(track) => Some(
                    ResolveRequestView {
                        track,
                        cache_path: derived_cache_path(self.caching, meta),
                        force_refetch: false,
                    },
                ),
                None => None,
            },
            search: None,
        }
    }

    /// What a refetch asks for: with a track, to resolve its lyric past the
    /// cache; without one, nothing.
    pub open spec fn refetch_effects(self) -> EffectsView {
        EffectsView {
            notification: None,
            cache_write: None,
            resolve: match self.track.metainfo {
                Some(track) => Some(
                    ResolveRequestView {
                        track,
                        cache_path: self.track.cache_path,
                        force_refetch: true,
                    },
                ),
                None => None,
            },
            search: None,
        }
    }

    /// After a removal: the cleared pair; player and track stay.
    pub open spec fn remove_lyric(self) -> PlaybackView<P> {
        PlaybackView { lyric: LyricPairView::cleared(), ..self }
    }

    /// What a removal asks for: to clear the display, and, with caching on
    /// and a cache path at hand, to store the cleared pair there.
    pub open spec fn remove_lyric_effects(self) -> EffectsView {
        EffectsView {
            notification: Some(NotificationView::Cleared),
            cache_write: match self.track.cache_path {
                Some(path) => if self.caching {
                    Some(CacheWriteView { path, pair: LyricPairView::cleared() })
                } else {
                    None
                },
                None => None,
            },
            resolve: None,
            search: None,
        }
    }

    /// Whether the result of a resolution started for `track` is applied: it
    /// has to bring a pair, and `track` still has to be the track in play.
    pub open spec fn accepts(
        self,
        track: TrackMetaView,
        outcome: Result<LyricPairView, ResolveError>,
    ) -> bool {
        outcome is Ok && self.track.metainfo == Some(track)
    }

    /// After a resolution: the pair it brought, where it is accepted.
    pub open spec fn resolve_completed(
        self,
        track: TrackMetaView,
        outcome: Result<LyricPairView, ResolveError>,
    ) -> PlaybackView<P> {
        if self.accepts(track, outcome) {
            PlaybackView { lyric: outcome->Ok_0, ..self }
        } else {
            self
        }
    }

    /// What an accepted resolution asks for: to show the pair, and with
    /// caching on to store it at the cache path of the track. A result that
    /// is not accepted asks for nothing.
    pub open spec fn resolve_completed_effects(
        self,
        track: TrackMetaView,
        outcome: Result<LyricPairView, ResolveError>,
    ) -> EffectsView {
        if self.accepts(track, outcome) {
            EffectsView {
                notification: Some(NotificationView::Updated(outcome->Ok_0)),
                cache_write: if self.caching {
                    Some(CacheWriteView { path: cache_path_of(track), pair: outcome->Ok_0 })
                } else {
                    None
                },
                resolve: None,
                search: None,
            }
        } else {
            EffectsView::nothing()
        }
    }

    /// The query that the search prompt starts from.
    pub open spec fn search_query(self) -> Option<SearchQueryView> {
        match self.track.metainfo {
            Some(track) => Some(track.search_query()),
            None => None,
        }
    }

    /// What a search asks for: the prompt, with that query.
    pub open spec fn search_effects(self) -> EffectsView {
        EffectsView {
            notification: None,
            cache_write: None,
            resolve: None,
            search: Some(SearchPromptView { query: self.search_query() }),
        }
    }

    /// The state after `event`.
    pub open spec fn step(self, event: EventView<P>) -> PlaybackView<P> {
        match event {
            EventView::Connect { player_id, found } => self.connect(found),
            EventView::Disconnect => self.disconnect(),
            EventView::TrackChanged { meta } => self.track_changed(meta),
            EventView::Refetch => self,
            EventView::Remove => self.remove_lyric(),
            EventView::Search => self,
            EventView::Resolved { track, outcome } => self.resolve_completed(track, outcome),
        }
    }

    /// What `event` asks for in this state.
    pub open spec fn effects(self, event: EventView<P>) -> EffectsView {
        match event {
            EventView::Connect { player_id, found } => EffectsView::nothing(),
            EventView::Disconnect => EffectsView::nothing(),
            EventView::TrackChanged { meta } => self.track_changed_effects(meta),
            EventView::Refetch => self.refetch_effects(),
            EventView::Remove => self.remove_lyric_effects(),
            EventView::Search => self.search_effects(),
            EventView::Resolved { track, outcome } => self.resolve_completed_effects(
                track,
                outcome,
            ),
        }
    }
}

/// The registers of one player connection, owned by the driver of the event
/// loop and changed by its transitions only.
#[derive(Debug)]
pub struct PlaybackState<P> {
    player: Option<P>,
    track: TrackState,
    lyric: LyricPair,
    caching: bool,
}

impl<P> View for PlaybackState<P> {
    type V = PlaybackView<P>;

    closed spec fn view(&self) -> PlaybackView<P> {
        PlaybackView {
            player: self.player,
            track: self.track@,
            lyric: self.lyric@,
            caching: self.caching,
        }
    }
}

impl<P> PlaybackState<P> {
    #[verifier::type_invariant]
    spec fn well_formed(&self) -> bool {
        self@.wf()
    }

    /// The state at process start.
    pub fn new(caching: bool) -> (state: PlaybackState<P>)
        ensures
            state@ == PlaybackView::<P>::initial(caching),
    {
        PlaybackState {
            player: None,
            track: TrackState { metainfo: None, cache_path: None },
            lyric: LyricPair::empty(),
            caching,
        }
    }

    /// The connected player.
    pub fn player(&self) -> (player: Option<&P>)
        ensures
            match player {
                Some(handle) => self@.player == Some(*handle),
                None => self@.player is None,
            },
    {
        self.player.as_ref()
    }

    /// The track in play and its cache path, which is the one that belongs
    /// to the track.
    pub fn track(&self) -> (track: &TrackState)
        ensures
            track@ == self@.track,
            track@.wf(),
            self@.wf(),
    {
        proof {
            use_type_invariant(self);
        }
        &self.track
    }

    /// The lyric on display.
    pub fn lyric(&self) -> (lyric: &LyricPair)
        ensures
            lyric@ == self@.lyric,
    {
        &self.lyric
    }

    /// Whether resolved lyrics are cached.
    pub fn caching(&self) -> (caching: bool)
        ensures
            caching == self@.caching,
    {
        self.caching
    }

    /// The state of the connection.
    pub fn phase(&self) -> (phase: Phase)
        ensures
            phase == self@.phase(),
    {
        if self.player.is_none() {
            Phase::Disconnected
        } else if self.track.metainfo.is_none() {
            Phase::ConnectedNoTrack
        } else {
            Phase::ConnectedPlaying
        }
    }

    /// Takes the answer of a player finder to the name `player_id`. A found
    /// player becomes the connected one and the player connected before is
    /// dropped; with no player found nothing changes and the error names
    /// `player_id`. Track and lyric stay as they are, and nothing is to be
    /// shown.
    pub fn connect_with(&mut self, player_id: &str, found: Result<P, NotFound>) -> (result:
        Result<(), ConnectError>)
        ensures
            final(self)@ == old(self)@.connect(found),
            result is Ok <==> found is Ok,
            result matches Err(error) ==> error matches ConnectError::NotFound { player_id: name }
                && name@ == player_id@,
    {
        proof {
            use_type_invariant(&*self);
        }
        match found {
            Ok(handle) => {
                self.player = Some(handle);
                Ok(())
            },
            Err(_) => Err(ConnectError::NotFound { player_id: player_id.to_owned() }),
        }
    }

    /// Looks `player_id` up with `finder` and connects to the player found.
    /// Whatever the finder answers, track, lyric and caching stay; the player
    /// changes on success only, and then a player is connected.
    pub fn connect<F: PlayerFinder<Handle = P>>(&mut self, finder: &F, player_id: &str) -> (result:
        Result<(), ConnectError>)
        ensures
            final(self)@.track == old(self)@.track,
            final(self)@.lyric == old(self)@.lyric,
            final(self)@.caching == old(self)@.caching,
            result is Ok ==> final(self)@.player is Some,
            result is Err ==> final(self)@ == old(self)@,
            result matches Err(error) ==> error matches ConnectError::NotFound { player_id: name }
                && name@ == player_id@,
    {
        let found = finder.find_by_name(player_id);
        self.connect_with(player_id, found)
    }

    /// Drops the connected player. Track and lyric stay as they are until the
    /// next track change, and nothing is to be shown.
    pub fn disconnect(&mut self)
        ensures
            final(self)@ == old(self)@.disconnect(),
    {
        proof {
            use_type_invariant(&*self);
        }
        self.player = None;
    }

    /// Takes the track that the player reports, `None` where it reports none.
    /// The track replaces the one in play, with its cache path where caching
    /// is on. The lyric stays in place until a resolution brings another; the
    /// effects ask to show it and, for a track, to resolve its lyric with the
    /// cache allowed.
    pub fn track_changed(&mut self, meta: Option<TrackMeta>) -> (effects: Effects)
        ensures
            final(self)@ == old(self)@.track_changed(view_of_meta(meta)),
            effects@ == old(self)@.track_changed_effects(view_of_meta(meta)),
    {
        proof {
            use_type_invariant(&*self);
        }
        let cache_path = match &meta {
            Some(track) => if self.caching {
                Some(get_cache_path(track))
            } else {
                None
            },
            None => None,
        };
        let resolve = match &meta {
            Some(track) => Some(
                ResolveRequest {
                    track: track.clone(),
                    cache_path: match &cache_path {
                        Some(path) => Some(path.clone()),
                        None => None,
                    },
                    force_refetch: false,
                },
            ),
            None => None,
        };
        self.track = TrackState { metainfo: meta, cache_path };
        Effects {
            notification: Some(Notification::Updated(self.lyric.clone())),
            cache_write: None,
            resolve,
            search: None,
        }
    }

    /// Asks for the lyric of the track in play once more, past the cache.
    /// Without a track nothing is asked for. The state does not change: the
    /// lyric is replaced when the resolution completes.
    pub fn refetch(&self) -> (effects: Effects)
        ensures
            effects@ == self@.refetch_effects(),
    {
        let resolve = match &self.track.metainfo {
            Some(track) => Some(
                ResolveRequest {
                    track: track.clone(),
                    cache_path: match &self.track.cache_path {
                        Some(path) => Some(path.clone()),
                        None => None,
                    },
                    force_refetch: true,
                },
            ),
            None => None,
        };
        Effects { notification: None, cache_write: None, resolve, search: None }
    }

    /// Replaces the lyric by the cleared pair. The effects ask to clear the
    /// display and, with caching on and a cache path at hand, to store the
    /// cleared pair there, so that the track is remembered as one without
    /// lyric.
    pub fn remove_lyric(&mut self) -> (effects: Effects)
        ensures
            final(self)@ == old(self)@.remove_lyric(),
            effects@ == old(self)@.remove_lyric_effects(),
    {
        proof {
            use_type_invariant(&*self);
        }
        self.lyric = LyricPair::cleared();
        let cache_write = match &self.track.cache_path {
            Some(path) => if self.caching {
                Some(CacheWrite { path: path.clone(), pair: LyricPair::cleared() })
            } else {
                None
            },
            None => None,
        };
        Effects {
            notification: Some(Notification::Cleared),
            cache_write,
            resolve: None,
            search: None,
        }
    }

    /// Takes the result of a resolution that was started for `track`. Where
    /// it brings a pair and `track` is still the track in play, the pair
    /// becomes the lyric, and the effects ask to show it and, with caching on,
    /// to store it at the cache path of the track. A result for a track that
    /// is no longer in play, and a failed resolution, change nothing and ask
    /// for nothing.
    pub fn resolve_completed(
        &mut self,
        track: &TrackMeta,
        outcome: Result<LyricPair, ResolveError>,
    ) -> (effects: Effects)
        ensures
            final(self)@ == old(self)@.resolve_completed(track@, view_of_outcome(outcome)),
            effects@ == old(self)@.resolve_completed_effects(track@, view_of_outcome(outcome)),
    {
        proof {
            use_type_invariant(&*self);
        }
        let current = match &self.track.metainfo {
            Some(playing) => *playing == *track,
            None => false,
        };
        match outcome {
            Ok(pair) => {
                if current {
                    let cache_write = if self.caching {
                        let path = match &self.track.cache_path {
                            Some(path) => path.clone(),
                            None => get_cache_path(track),
                        };
                        Some(CacheWrite { path, pair: pair.clone() })
                    } else {
                        None
                    };
                    let notification = Some(Notification::Updated(pair.clone()));
                    self.lyric = pair;
                    Effects { notification, cache_write, resolve: None, search: None }
                } else {
                    Effects::nothing()
                }
            },
            Err(_) => Effects::nothing(),
        }
    }

    /// The query that a search for the lyric of the track in play starts
    /// from, `None` without a track.
    pub fn search_query(&self) -> (query: Option<SearchQuery>)
        ensures
            view_of_query(query) == self@.search_query(),
    {
        match &self.track.metainfo {
            Some(track) => Some(track.search_query()),
            None => None,
        }
    }

    /// Applies one event: the transition that belongs to it, with its
    /// effects.
    pub fn handle(&mut self, event: Event<P>) -> (effects: Effects)
        ensures
            final(self)@ == old(self)@.step(event@),
            effects@ == old(self)@.effects(event@),
    {
        match event {
            Event::Connect { player_id, found } => {
                let _ = self.connect_with(player_id.as_str(), found);
                Effects::nothing()
            },
            Event::Disconnect => {
                self.disconnect();
                Effects::nothing()
            },
            Event::TrackChanged { meta } => self.track_changed(meta),
            Event::Refetch => self.refetch(),
            Event::Remove => self.remove_lyric(),
            Event::Search => Effects {
                notification: None,
                cache_write: None,
                resolve: None,
                search: Some(SearchPrompt { query: self.search_query() }),
            },
            Event::Resolved { track, outcome } => self.resolve_completed(&track, outcome),
        }
    }
}

} // verus!
