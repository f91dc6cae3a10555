use lyric_sync::cache::get_cache_path;
use lyric_sync::lyric::{LyricContent, LyricLine, LyricPair};
use lyric_sync::resolve::{resolve, ProviderError};
use lyric_sync::sync::{
    CacheWrite, ConnectError, Effects, Event, NotFound, Notification, Phase, PlaybackState,
    PlayerFinder, ResolveError, ResolveRequest, SearchPrompt, TrackState,
};
use lyric_sync::track::{SearchQuery, TrackMeta};

fn meta(title: &str, album: Option<&str>, artists: Option<&[&str]>) -> TrackMeta {
    TrackMeta {
        title: title.to_string(),
        album: album.map(|a| a.to_string()),
        artists: artists.map(|list| list.iter().map(|a| a.to_string()).collect()),
    }
}

fn lyric(text: &str) -> LyricPair {
    LyricPair {
        origin: LyricContent::LineTimestamp(vec![LyricLine {
            start_ms: 0,
            text: text.to_string(),
        }]),
        translation: LyricContent::Absent,
    }
}

struct KnownPlayers {
    names: Vec<&'static str>,
}

impl PlayerFinder for KnownPlayers {
    type Handle = usize;

    fn find_by_name(&self, player_id: &str) -> Result<usize, NotFound> {
        self.names.iter().position(|name| *name == player_id).ok_or(NotFound)
    }
}

fn finder() -> KnownPlayers {
    KnownPlayers { names: vec!["mpv", "firefox"] }
}

#[test]
fn new_state_is_empty_and_disconnected() {
    let state: PlaybackState<usize> = PlaybackState::new(true);
    assert_eq!(state.phase(), Phase::Disconnected);
    assert_eq!(state.player(), None);
    assert_eq!(state.track(), &TrackState { metainfo: None, cache_path: None });
    assert_eq!(state.lyric(), &LyricPair::empty());
    assert!(state.caching());
    assert!(!PlaybackState::<usize>::new(false).caching());
}

#[test]
fn connect_sets_player() {
    let mut state: PlaybackState<usize> = PlaybackState::new(false);
    assert_eq!(state.connect(&finder(), "firefox"), Ok(()));
    assert_eq!(state.player(), Some(&1));
    assert_eq!(state.phase(), Phase::ConnectedNoTrack);
}

#[test]
fn connect_replaces_player() {
    let mut state: PlaybackState<usize> = PlaybackState::new(false);
    assert_eq!(state.connect(&finder(), "firefox"), Ok(()));
    assert_eq!(state.connect(&finder(), "mpv"), Ok(()));
    assert_eq!(state.player(), Some(&0));
}

#[test]
fn connect_to_unknown_player_changes_nothing() {
    let mut state: PlaybackState<usize> = PlaybackState::new(true);
    let result = state.connect(&finder(), "bad-id");
    assert_eq!(result, Err(ConnectError::NotFound { player_id: "bad-id".to_string() }));
    assert_eq!(state.player(), None);
    assert_eq!(state.phase(), Phase::Disconnected);
    assert_eq!(state.lyric(), &LyricPair::empty());
}

#[test]
fn failed_connect_keeps_prior_player_and_emits_nothing() {
    let mut state: PlaybackState<usize> = PlaybackState::new(true);
    state.connect(&finder(), "mpv").unwrap();
    state.track_changed(Some(meta("A", None, None)));
    state.resolve_completed(&meta("A", None, None), Ok(lyric("la")));
    let found = finder().find_by_name("bad-id");
    assert_eq!(found, Err(NotFound));
    let effects = state.handle(Event::Connect { player_id: "bad-id".to_string(), found });
    assert_eq!(effects, Effects::nothing());
    assert_eq!(effects.notification, None);
    assert_eq!(state.player(), Some(&0));
    assert_eq!(state.phase(), Phase::ConnectedPlaying);
    assert_eq!(state.track().metainfo, Some(meta("A", None, None)));
    assert_eq!(state.lyric(), &lyric("la"));
}

#[test]
fn connect_with_reports_the_name_on_failure() {
    let mut state: PlaybackState<usize> = PlaybackState::new(false);
    assert_eq!(
        state.connect_with("x", Err(NotFound)),
        Err(ConnectError::NotFound { player_id: "x".to_string() })
    );
    assert_eq!(state.connect_with("y", Ok(9)), Ok(()));
    assert_eq!(state.player(), Some(&9));
}

#[test]
fn disconnect_clears_player_only() {
    let mut state: PlaybackState<usize> = PlaybackState::new(true);
    state.connect(&finder(), "mpv").unwrap();
    state.track_changed(Some(meta("A", Some("X"), None)));
    state.resolve_completed(&meta("A", Some("X"), None), Ok(lyric("la")));
    let track_before = state.track().metainfo.clone();
    state.disconnect();
    assert_eq!(state.player(), None);
    assert_eq!(state.phase(), Phase::Disconnected);
    assert_eq!(state.track().metainfo, track_before);
    assert_eq!(state.track().cache_path, Some(get_cache_path(&meta("A", Some("X"), None))));
    assert_eq!(state.lyric(), &lyric("la"));
}

#[test]
fn disconnect_event_asks_for_nothing() {
    let mut state: PlaybackState<usize> = PlaybackState::new(true);
    state.connect(&finder(), "mpv").unwrap();
    assert_eq!(state.handle(Event::Disconnect), Effects::nothing());
    assert_eq!(state.phase(), Phase::Disconnected);
}

#[test]
fn track_changed_sets_track_and_asks_for_resolution() {
    let mut state: PlaybackState<usize> = PlaybackState::new(true);
    state.connect(&finder(), "mpv").unwrap();
    let track = meta("A", Some("X"), Some(&[]));
    let effects = state.track_changed(Some(track.clone()));
    assert_eq!(state.phase(), Phase::ConnectedPlaying);
    assert_eq!(state.track().metainfo, Some(track.clone()));
    assert_eq!(state.track().cache_path, Some("c9cebb747cb70824.lyric".to_string()));
    assert_eq!(
        effects,
        Effects {
            notification: Some(Notification::Updated(LyricPair::empty())),
            cache_write: None,
            resolve: Some(ResolveRequest {
                track,
                cache_path: Some("c9cebb747cb70824.lyric".to_string()),
                force_refetch: false,
            }),
            search: None,
        }
    );
}

#[test]
fn track_changed_without_caching_has_no_cache_path() {
    let mut state: PlaybackState<usize> = PlaybackState::new(false);
    let effects = state.track_changed(Some(meta("A", None, None)));
    assert_eq!(state.track().cache_path, None);
    assert_eq!(effects.resolve.unwrap().cache_path, None);
}

#[test]
fn track_changed_to_none_forgets_track() {
    let mut state: PlaybackState<usize> = PlaybackState::new(true);
    state.connect(&finder(), "mpv").unwrap();
    state.track_changed(Some(meta("A", None, None)));
    state.resolve_completed(&meta("A", None, None), Ok(lyric("la")));
    let effects = state.track_changed(None);
    assert_eq!(state.phase(), Phase::ConnectedNoTrack);
    assert_eq!(state.track(), &TrackState { metainfo: None, cache_path: None });
    assert_eq!(state.lyric(), &lyric("la"));
    assert_eq!(effects.resolve, None);
    assert_eq!(effects.notification, Some(Notification::Updated(lyric("la"))));
    assert_eq!(effects.cache_write, None);
}

#[test]
fn last_track_change_wins() {
    let mut state: PlaybackState<usize> = PlaybackState::new(true);
    let tracks = [meta("A", None, None), meta("B", Some("X"), None), meta("C", None, Some(&["z"]))];
    for track in tracks.iter() {
        state.track_changed(Some(track.clone()));
    }
    assert_eq!(state.track().metainfo, Some(meta("C", None, Some(&["z"]))));
    assert_eq!(state.track().cache_path, Some(get_cache_path(&meta("C", None, Some(&["z"])))));
}

#[test]
fn last_track_change_wins_over_interleaved_events() {
    let mut state: PlaybackState<usize> = PlaybackState::new(true);
    state.handle(Event::TrackChanged { meta: Some(meta("A", None, None)) });
    state.handle(Event::Refetch);
    state.handle(Event::TrackChanged { meta: Some(meta("B", None, None)) });
    state.handle(Event::Resolved { track: meta("A", None, None), outcome: Ok(lyric("a")) });
    state.handle(Event::Remove);
    state.handle(Event::Resolved { track: meta("B", None, None), outcome: Ok(lyric("b")) });
    state.handle(Event::Disconnect);
    state.handle(Event::Search);
    state.handle(Event::Resolved { track: meta("B", None, None), outcome: Err(ResolveError) });
    assert_eq!(state.track().metainfo, Some(meta("B", None, None)));
    assert_eq!(state.lyric(), &lyric("b"));
}

#[test]
fn first_play_resolves_and_caches() {
    let mut state: PlaybackState<usize> = PlaybackState::new(true);
    state.connect(&finder(), "mpv").unwrap();
    let track = meta("A", Some("X"), Some(&[]));
    let request = state.track_changed(Some(track.clone())).resolve.unwrap();
    let expected = LyricPair {
        origin: LyricContent::LineTimestamp(vec![LyricLine {
            start_ms: 0,
            text: "la".to_string(),
        }]),
        translation: LyricContent::Absent,
    };
    let provider_answer = LyricPair {
        origin: LyricContent::LineTimestamp(vec![LyricLine {
            start_ms: 0,
            text: "la".to_string(),
        }]),
        translation: LyricContent::Absent,
    };
    let outcome = resolve(&request, &None, &vec![Ok(provider_answer)]);
    assert_eq!(outcome, Ok(expected.clone()));
    let effects = state.resolve_completed(&request.track, outcome);
    assert_eq!(state.lyric(), &expected);
    assert_eq!(
        effects.cache_write,
        Some(CacheWrite { path: get_cache_path(&track), pair: expected.clone() })
    );
    assert_eq!(effects.notification, Some(Notification::Updated(expected)));
    assert_eq!(effects.resolve, None);
}

#[test]
fn resolution_without_caching_writes_nothing() {
    let mut state: PlaybackState<usize> = PlaybackState::new(false);
    let track = meta("A", None, None);
    state.track_changed(Some(track.clone()));
    let effects = state.resolve_completed(&track, Ok(lyric("la")));
    assert_eq!(state.lyric(), &lyric("la"));
    assert_eq!(effects.cache_write, None);
    assert_eq!(effects.notification, Some(Notification::Updated(lyric("la"))));
}

#[test]
fn provider_failures_resolve_to_empty_pair() {
    let mut state: PlaybackState<usize> = PlaybackState::new(true);
    let track = meta("A", None, None);
    let request = state.track_changed(Some(track.clone())).resolve.unwrap();
    let outcome = resolve(&request, &None, &vec![Err(ProviderError), Err(ProviderError)]);
    let effects = state.resolve_completed(&track, outcome);
    assert_eq!(state.lyric(), &LyricPair::empty());
    assert_eq!(effects.notification, Some(Notification::Updated(LyricPair::empty())));
}

#[test]
fn failed_resolution_keeps_prior_lyric() {
    let mut state: PlaybackState<usize> = PlaybackState::new(true);
    state.track_changed(Some(meta("A", None, None)));
    state.resolve_completed(&meta("A", None, None), Ok(lyric("a")));
    state.track_changed(Some(meta("B", None, None)));
    let effects = state.resolve_completed(&meta("B", None, None), Err(ResolveError));
    assert_eq!(effects, Effects::nothing());
    assert_eq!(state.lyric(), &lyric("a"));
    assert_eq!(state.track().metainfo, Some(meta("B", None, None)));
}

#[test]
fn stale_result_is_discarded() {
    let mut state: PlaybackState<usize> = PlaybackState::new(true);
    let first = meta("A", None, None);
    let second = meta("B", None, None);
    let request = state.track_changed(Some(first.clone())).resolve.unwrap();
    state.track_changed(Some(second.clone()));
    let effects = state.resolve_completed(&request.track, Ok(lyric("for A")));
    assert_eq!(effects, Effects::nothing());
    assert_eq!(state.lyric(), &LyricPair::empty());
    assert_eq!(state.track().metainfo, Some(second.clone()));
    let effects = state.resolve_completed(&second, Ok(lyric("for B")));
    assert_eq!(state.lyric(), &lyric("for B"));
    assert_eq!(effects.cache_write.unwrap().path, get_cache_path(&second));
}

#[test]
fn result_after_track_was_lost_is_discarded() {
    let mut state: PlaybackState<usize> = PlaybackState::new(true);
    let first = meta("A", None, None);
    state.track_changed(Some(first.clone()));
    state.track_changed(None);
    assert_eq!(state.resolve_completed(&first, Ok(lyric("for A"))), Effects::nothing());
    assert_eq!(state.lyric(), &LyricPair::empty());
}

#[test]
fn result_without_any_track_is_discarded() {
    let mut state: PlaybackState<usize> = PlaybackState::new(true);
    let effects = state.resolve_completed(&meta("A", None, None), Ok(lyric("la")));
    assert_eq!(effects, Effects::nothing());
    assert_eq!(state.lyric(), &LyricPair::empty());
}

#[test]
fn refetch_without_track_is_a_no_op() {
    let mut state: PlaybackState<usize> = PlaybackState::new(true);
    state.connect(&finder(), "mpv").unwrap();
    assert_eq!(state.refetch(), Effects::nothing());
    assert_eq!(state.handle(Event::Refetch), Effects::nothing());
    assert_eq!(state.lyric(), &LyricPair::empty());
    assert_eq!(state.phase(), Phase::ConnectedNoTrack);
}

#[test]
fn refetch_asks_past_the_cache() {
    let mut state: PlaybackState<usize> = PlaybackState::new(true);
    let track = meta("A", Some("X"), Some(&[]));
    state.track_changed(Some(track.clone()));
    state.resolve_completed(&track, Ok(lyric("old")));
    let effects = state.refetch();
    assert_eq!(
        effects,
        Effects {
            notification: None,
            cache_write: None,
            resolve: Some(ResolveRequest {
                track: track.clone(),
                cache_path: Some(get_cache_path(&track)),
                force_refetch: true,
            }),
            search: None,
        }
    );
    assert_eq!(state.lyric(), &lyric("old"));
    let request = effects.resolve.unwrap();
    let outcome = resolve(&request, &Some(lyric("old")), &vec![Ok(lyric("new"))]);
    let effects = state.resolve_completed(&request.track, outcome);
    assert_eq!(state.lyric(), &lyric("new"));
    assert_eq!(
        effects.cache_write,
        Some(CacheWrite { path: get_cache_path(&track), pair: lyric("new") })
    );
}

#[test]
fn refetch_failure_keeps_lyric() {
    let mut state: PlaybackState<usize> = PlaybackState::new(true);
    let track = meta("A", None, None);
    state.track_changed(Some(track.clone()));
    state.resolve_completed(&track, Ok(lyric("old")));
    state.refetch();
    assert_eq!(state.resolve_completed(&track, Err(ResolveError)), Effects::nothing());
    assert_eq!(state.lyric(), &lyric("old"));
}

#[test]
fn remove_then_refetch_shows_refetched_lyric() {
    let mut state: PlaybackState<usize> = PlaybackState::new(true);
    let track = meta("A", None, None);
    state.track_changed(Some(track.clone()));
    state.resolve_completed(&track, Ok(lyric("old")));
    state.remove_lyric();
    assert_eq!(state.lyric(), &LyricPair::cleared());
    let request = state.refetch().resolve.unwrap();
    assert!(request.force_refetch);
    let outcome = resolve(&request, &Some(LyricPair::cleared()), &vec![Ok(lyric("new"))]);
    state.resolve_completed(&request.track, outcome);
    assert_eq!(state.lyric(), &lyric("new"));
}

#[test]
fn remove_lyric_without_caching_clears_memory_only() {
    let mut state: PlaybackState<usize> = PlaybackState::new(false);
    let track = meta("A", None, None);
    state.track_changed(Some(track.clone()));
    state.resolve_completed(&track, Ok(lyric("la")));
    let effects = state.remove_lyric();
    assert_eq!(
        state.lyric(),
        &LyricPair { origin: LyricContent::LineTimestamp(vec![]), translation: LyricContent::Absent }
    );
    assert_eq!(
        effects,
        Effects {
            notification: Some(Notification::Cleared),
            cache_write: None,
            resolve: None,
            search: None,
        }
    );
}

#[test]
fn remove_lyric_with_caching_stores_cleared_pair() {
    let mut state: PlaybackState<usize> = PlaybackState::new(true);
    let track = meta("A", Some("X"), Some(&[]));
    state.track_changed(Some(track.clone()));
    state.resolve_completed(&track, Ok(lyric("la")));
    let effects = state.handle(Event::Remove);
    assert_eq!(state.lyric(), &LyricPair::cleared());
    assert_eq!(effects.notification, Some(Notification::Cleared));
    assert_eq!(
        effects.cache_write,
        Some(CacheWrite { path: "c9cebb747cb70824.lyric".to_string(), pair: LyricPair::cleared() })
    );
    assert_eq!(state.track().metainfo, Some(track));
}

#[test]
fn remove_lyric_without_track_writes_nothing() {
    let mut state: PlaybackState<usize> = PlaybackState::new(true);
    let effects = state.remove_lyric();
    assert_eq!(state.lyric(), &LyricPair::cleared());
    assert_eq!(effects.notification, Some(Notification::Cleared));
    assert_eq!(effects.cache_write, None);
}

#[test]
fn removed_lyric_is_a_cache_hit_later() {
    let mut state: PlaybackState<usize> = PlaybackState::new(true);
    let track = meta("A", None, None);
    state.track_changed(Some(track.clone()));
    let stored = state.remove_lyric().cache_write.unwrap();
    let request = state.track_changed(Some(track.clone())).resolve.unwrap();
    assert_eq!(request.cache_path, Some(stored.path));
    let outcome = resolve(&request, &Some(stored.pair), &vec![Ok(lyric("from provider"))]);
    state.resolve_completed(&track, outcome);
    assert_eq!(state.lyric(), &LyricPair::cleared());
}

#[test]
fn search_starts_from_track_fields() {
    let mut state: PlaybackState<usize> = PlaybackState::new(true);
    state.track_changed(Some(meta("A", None, Some(&["p"]))));
    let expected =
        SearchQuery { album: String::new(), artists: vec!["p".to_string()], title: "A".to_string() };
    assert_eq!(state.search_query(), Some(expected.clone()));
    let effects = state.handle(Event::Search);
    assert_eq!(
        effects,
        Effects {
            notification: None,
            cache_write: None,
            resolve: None,
            search: Some(SearchPrompt { query: Some(expected) }),
        }
    );
}

#[test]
fn search_without_track_has_no_query() {
    let mut state: PlaybackState<usize> = PlaybackState::new(true);
    assert_eq!(state.search_query(), None);
    assert_eq!(state.handle(Event::Search).search, Some(SearchPrompt { query: None }));
}

#[test]
fn connect_event_sets_player() {
    let mut state: PlaybackState<usize> = PlaybackState::new(true);
    let effects = state.handle(Event::Connect { player_id: "mpv".to_string(), found: Ok(4) });
    assert_eq!(effects, Effects::nothing());
    assert_eq!(state.player(), Some(&4));
}

#[test]
fn phases_follow_player_and_track() {
    let mut state: PlaybackState<usize> = PlaybackState::new(false);
    assert_eq!(state.phase(), Phase::Disconnected);
    state.track_changed(Some(meta("A", None, None)));
    assert_eq!(state.phase(), Phase::Disconnected);
    state.connect(&finder(), "mpv").unwrap();
    assert_eq!(state.phase(), Phase::ConnectedPlaying);
    state.track_changed(None);
    assert_eq!(state.phase(), Phase::ConnectedNoTrack);
    state.disconnect();
    assert_eq!(state.phase(), Phase::Disconnected);
}
