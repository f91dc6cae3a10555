//! What holds of the playback state over several transitions.

use crate::cache::cache_path_of;
use crate::lyric::LyricPairView;
use crate::sync::{
    CacheWriteView, EffectsView, EventView, NotificationView, PlaybackView, Phase, ResolveError,
    ResolveRequestView,
};
use crate::track::{TrackMeta, TrackMetaView};
use vstd::prelude::*;

verus! {

/// The state after the events of `events`, applied in order to `state`.
pub open spec fn run<P>(state: PlaybackView<P>, events: Seq<EventView<P>>) -> PlaybackView<P>
    decreases events.len(),
{
    if events.len() == 0 {
        state
    } else {
        run(state, events.drop_last()).step(events.last())
    }
}

/// The track that the last track change of `events` reported, `None` where
/// `events` holds no track change.
pub open spec fn last_track_change<P>(events: Seq<EventView<P>>) -> Option<Option<TrackMetaView>>
    decreases events.len(),
{
    if events.len() == 0 {
        None
    } else {
        match events.last() {
            EventView::TrackChanged { meta } => Some(meta),
            _ => last_track_change(events.drop_last()),
        }
    }
}

/// The state at process start is well formed, and disconnected.
pub proof fn lemma_initial_state<P>(caching: bool)
    ensures
        PlaybackView::<P>::initial(caching).wf(),
        PlaybackView::<P>::initial(caching).phase() == Phase::Disconnected,
{
}

/// Every transition keeps the state well formed, and none changes whether
/// lyrics are cached. So the cache path of a state is set only together with
/// a track.
pub proof fn lemma_step_keeps_well_formed<P>(state: PlaybackView<P>, event: EventView<P>)
    requires
        state.wf(),
    ensures
        state.step(event).wf(),
        state.step(event).track.wf(),
        state.step(event).caching == state.caching,
        state.step(event).track.cache_path is Some ==> state.step(event).track.metainfo is Some,
{
}

/// Every sequence of transitions keeps the state well formed.
pub proof fn lemma_run_keeps_well_formed<P>(state: PlaybackView<P>, events: Seq<EventView<P>>)
    requires
        state.wf(),
    ensures
        run(state, events).wf(),
        run(state, events).caching == state.caching,
    decreases events.len(),
{
    if events.len() > 0 {
        lemma_run_keeps_well_formed(state, events.drop_last());
        lemma_step_keeps_well_formed(run(state, events.drop_last()), events.last());
    }
}

/// The last track change wins: after any sequence of events the track in
/// play is the one that the last track change among them reported, whatever
/// came between and after it, completed resolutions among it. Without a
/// track change the track is the one from before.
pub proof fn lemma_last_track_change_wins<P>(state: PlaybackView<P>, events: Seq<EventView<P>>)
    ensures
        run(state, events).track.metainfo == match last_track_change(events) {
            Some(meta) => meta,
            None => state.track.metainfo,
        },
    decreases events.len(),
{
    if events.len() > 0 {
        lemma_last_track_change_wins(state, events.drop_last());
    }
}

/// A sequence of track changes alone leaves the track of the last one.
pub proof fn lemma_track_changes_end_with_last<P>(
    state: PlaybackView<P>,
    events: Seq<EventView<P>>,
)
    requires
        events.len() > 0,
        forall|i: int| 0 <= i < events.len() ==> events[i] is TrackChanged,
    ensures
        run(state, events).track.metainfo == events.last()->TrackChanged_meta,
{
    lemma_last_track_change_wins(state, events);
}

/// Transitions apply in the order of their calls: a refetch right after a
/// removal asks for the lyric of the track in play past the cache, and when
/// that resolution brings a pair the pair is the lyric, not the cleared pair
/// of the removal. Where the resolution fails the lyric stays as the removal
/// left it.
pub proof fn lemma_refetch_after_remove<P>(
    state: PlaybackView<P>,
    track: TrackMetaView,
    outcome: Result<LyricPairView, ResolveError>,
)
    requires
        state.wf(),
        state.track.metainfo == Some(track),
    ensures
        state.remove_lyric().refetch_effects().resolve == Some(
            ResolveRequestView { track, cache_path: state.track.cache_path, force_refetch: true },
        ),
        state.remove_lyric().resolve_completed(track, outcome).lyric == match outcome {
            Ok(pair) => pair,
            Err(_) => LyricPairView::cleared(),
        },
        outcome matches Ok(pair) ==> state.remove_lyric().resolve_completed_effects(
            track,
            outcome,
        ).notification == Some(NotificationView::Updated(pair)),
{
}

/// A result for a track that is not the one in play is discarded: it changes
/// nothing and asks for nothing.
pub proof fn lemma_stale_result_discarded<P>(
    state: PlaybackView<P>,
    track: TrackMetaView,
    outcome: Result<LyricPairView, ResolveError>,
)
    requires
        state.track.metainfo != Some(track),
    ensures
        state.resolve_completed(track, outcome) == state,
        state.resolve_completed_effects(track, outcome) == EffectsView::nothing(),
{
}

/// A resolution started for the track `first` that completes after the
/// player has gone on to something else does not touch the lyric: the state
/// is the one that the second track change left.
pub proof fn lemma_overtaken_result_discarded<P>(
    state: PlaybackView<P>,
    first: TrackMetaView,
    second: Option<TrackMetaView>,
    outcome: Result<LyricPairView, ResolveError>,
)
    requires
        second != Some(first),
    ensures
        state.track_changed(Some(first)).track_changed_effects(Some(first)).resolve is Some,
        state.track_changed(Some(first)).track_changed(second).resolve_completed(first, outcome)
            == state.track_changed(Some(first)).track_changed(second),
        state.track_changed(Some(first)).track_changed(second).lyric == state.lyric,
        state.track_changed(Some(first)).track_changed(second).resolve_completed_effects(
            first,
            outcome,
        ) == EffectsView::nothing(),
{
    lemma_stale_result_discarded(
        state.track_changed(Some(first)).track_changed(second),
        first,
        outcome,
    );
}

/// A result with a pair for the track in play becomes the lyric, and with
/// caching on it is stored at the cache path of the state.
pub proof fn lemma_current_result_applied<P>(
    state: PlaybackView<P>,
    track: TrackMetaView,
    pair: LyricPairView,
)
    requires
        state.wf(),
        state.track.metainfo == Some(track),
    ensures
        state.resolve_completed(track, Ok(pair)).lyric == pair,
        state.resolve_completed(track, Ok(pair)).track == state.track,
        state.caching ==> state.track.cache_path == Some(cache_path_of(track)),
        state.caching ==> state.resolve_completed_effects(track, Ok(pair)).cache_write == Some(
            CacheWriteView { path: cache_path_of(track), pair },
        ),
        !state.caching ==> state.resolve_completed_effects(track, Ok(pair)).cache_write is None,
{
}

/// A failed lookup leaves the state as it is and asks for nothing.
pub proof fn lemma_failed_connect_changes_nothing<P>(
    state: PlaybackView<P>,
    player_id: Seq<char>,
    error: crate::sync::NotFound,
)
    ensures
        state.step(EventView::Connect { player_id, found: Err(error) }) == state,
        state.effects(EventView::Connect { player_id, found: Err(error) })
            == EffectsView::nothing(),
{
}

/// A disconnect leaves track and lyric in place.
pub proof fn lemma_disconnect_keeps_track_and_lyric<P>(state: PlaybackView<P>)
    ensures
        state.disconnect().phase() == Phase::Disconnected,
        state.disconnect().track == state.track,
        state.disconnect().lyric == state.lyric,
{
}

/// The cache path depends on the fields of a track alone: two snapshots with
/// the same fields have the same path.
pub proof fn lemma_cache_path_deterministic(left: TrackMeta, right: TrackMeta)
    requires
        left@ == right@,
    ensures
        cache_path_of(left@) == cache_path_of(right@),
{
}

} // verus!
