//! Playback state and frame timing of a video player.
//!
//! Times are in nanoseconds: the position of the playback clock and the
//! presentation times of frames. The first frame's presentation time is the
//! base from which the others are measured.
use vstd::prelude::*;

verus! {

/// Playback state.
#[derive(Clone, Copy, Debug, PartialEq, Eq, Structural)]
pub enum PlaybackState {
    Playing,
    Paused,
    Ended,
    Error,
}

/// `a - b`, or zero when `b` is larger.
pub open spec fn spec_sat_sub(a: u128, b: u128) -> u128 {
    if a >= b {
        (a - b) as u128
    } else {
        0
    }
}

fn sat_sub(a: u128, b: u128) -> (r: u128)
    ensures
        r == spec_sat_sub(a, b),
{
    if a >= b {
        a - b
    } else {
        0
    }
}

/// The state after a pause request, and whether the clock and the audio are
/// paused: only a playing video pauses.
pub open spec fn spec_pause_transition(state: PlaybackState) -> (PlaybackState, bool) {
    if state == PlaybackState::Playing {
        (PlaybackState::Paused, true)
    } else {
        (state, false)
    }
}

/// The state after a resume request, and whether the clock and the audio are
/// resumed: only a paused video resumes.
pub open spec fn spec_resume_transition(state: PlaybackState) -> (PlaybackState, bool) {
    if state == PlaybackState::Paused {
        (PlaybackState::Playing, true)
    } else {
        (state, false)
    }
}

/// Toggling resumes a paused video and otherwise asks for a pause.
pub open spec fn spec_toggle_pause_transition(state: PlaybackState) -> (PlaybackState, bool) {
    if state == PlaybackState::Paused {
        spec_resume_transition(state)
    } else {
        spec_pause_transition(state)
    }
}

/// After a seek an ended or failed video plays again; a paused video stays
/// paused and a playing one keeps playing.
pub open spec fn spec_seek_transition(state: PlaybackState) -> PlaybackState {
    if state == PlaybackState::Ended || state == PlaybackState::Error {
        PlaybackState::Playing
    } else {
        state
    }
}

/// The state after a pause request, and whether to pause the clock and audio.
pub fn pause_transition(state: PlaybackState) -> (r: (PlaybackState, bool))
    ensures
        r == spec_pause_transition(state),
{
    match state {
        PlaybackState::Playing => (PlaybackState::Paused, true),
        _ => (state, false),
    }
}

/// The state after a resume request, and whether to resume the clock and audio.
pub fn resume_transition(state: PlaybackState) -> (r: (PlaybackState, bool))
    ensures
        r == spec_resume_transition(state),
{
    match state {
        PlaybackState::Paused => (PlaybackState::Playing, true),
        _ => (state, false),
    }
}

/// The state after toggling pause, and whether the clock and audio change.
pub fn toggle_pause_transition(state: PlaybackState) -> (r: (PlaybackState, bool))
    ensures
        r == spec_toggle_pause_transition(state),
{
    if state == PlaybackState::Paused {
        resume_transition(state)
    } else {
        pause_transition(state)
    }
}

/// The state after a seek.
pub fn seek_transition(state: PlaybackState) -> (r: PlaybackState)
    ensures
        r == spec_seek_transition(state),
{
    match state {
        PlaybackState::Ended | PlaybackState::Error => PlaybackState::Playing,
        _ => state,
    }
}

/// Where a seek lands: the requested position, but not past the end.
pub fn seek_target(position: u128, duration: u128) -> (r: u128)
    ensures
        r == if position <= duration {
            position
        } else {
            duration
        },
{
    if position <= duration {
        position
    } else {
        duration
    }
}

/// The position `amount` after `position`, saturating at `limit` (the
/// largest representable time).
pub fn seek_forward_position(position: u128, amount: u128, limit: u128) -> (r: u128)
    requires
        position <= limit,
    ensures
        r == if position + amount <= limit {
            (position + amount) as int
        } else {
            limit as int
        },
{
    if amount <= limit - position {
        position + amount
    } else {
        limit
    }
}

/// The position `amount` before `position`, saturating at zero.
pub fn seek_backward_position(position: u128, amount: u128) -> (r: u128)
    ensures
        r == spec_sat_sub(position, amount),
{
    sat_sub(position, amount)
}

/// Whether the buffered next frame is due: both its presentation time and
/// the clock are measured from the base, and it is due once the clock has
/// reached it.
pub open spec fn spec_frame_due(next_pts: u128, base: Option<u128>, elapsed: u128) -> bool {
    let b = match base {
        Some(b) => b,
        None => 0,
    };
    spec_sat_sub(elapsed, b) >= spec_sat_sub(next_pts, b)
}

/// Decides whether the next frame replaces the current one.
pub fn frame_due(next_pts: u128, base: Option<u128>, elapsed: u128) -> (r: bool)
    ensures
        r == spec_frame_due(next_pts, base, elapsed),
{
    let b = match base {
        Some(b) => b,
        None => 0,
    };
    sat_sub(elapsed, b) >= sat_sub(next_pts, b)
}

/// Whether playback has ended: no frame is buffered and none will come, and
/// either nothing was ever shown or the clock has passed the last frame.
pub open spec fn spec_playback_ended(
    current_pts: Option<u128>,
    base: Option<u128>,
    elapsed: u128,
    next_buffered: bool,
    queue_closed: bool,
    queue_empty: bool,
) -> bool {
    let b = match base {
        Some(b) => b,
        None => 0,
    };
    &&& !next_buffered
    &&& queue_closed
    &&& queue_empty
    &&& match current_pts {
        Some(p) => spec_sat_sub(elapsed, b) > spec_sat_sub(p, b),
        None => true,
    }
}

/// Decides whether playback has ended.
pub fn playback_ended(
    current_pts: Option<u128>,
    base: Option<u128>,
    elapsed: u128,
    next_buffered: bool,
    queue_closed: bool,
    queue_empty: bool,
) -> (r: bool)
    ensures
        r == spec_playback_ended(
            current_pts,
            base,
            elapsed,
            next_buffered,
            queue_closed,
            queue_empty,
        ),
{
    if next_buffered || !queue_closed || !queue_empty {
        return false;
    }
    let b = match base {
        Some(b) => b,
        None => 0,
    };
    match current_pts {
        Some(p) => sat_sub(elapsed, b) > sat_sub(p, b),
        None => true,
    }
}

/// Grid players compare the clock itself, not measured from the base, with
/// the frame's presentation time measured from the base.
pub open spec fn spec_grid_frame_due(next_pts: u128, base: Option<u128>, elapsed: u128) -> bool {
    let b = match base {
        Some(b) => b,
        None => 0,
    };
    elapsed >= spec_sat_sub(next_pts, b)
}

/// Decides whether a grid player shows its next frame.
pub fn grid_frame_due(next_pts: u128, base: Option<u128>, elapsed: u128) -> (r: bool)
    ensures
        r == spec_grid_frame_due(next_pts, base, elapsed),
{
    let b = match base {
        Some(b) => b,
        None => 0,
    };
    elapsed >= sat_sub(next_pts, b)
}

/// Whether a grid player has ended: as for a single player, but with the
/// clock compared as it is.
pub fn grid_playback_ended(
    current_pts: Option<u128>,
    base: Option<u128>,
    elapsed: u128,
    next_buffered: bool,
    queue_closed: bool,
    queue_empty: bool,
) -> (r: bool)
    ensures
        r == (!next_buffered && queue_closed && queue_empty && match current_pts {
            Some(p) => elapsed > spec_sat_sub(
                p,
                match base {
                    Some(b) => b,
                    None => 0,
                },
            ),
            None => true,
        }),
{
    if next_buffered || !queue_closed || !queue_empty {
        return false;
    }
    let b = match base {
        Some(b) => b,
        None => 0,
    };
    match current_pts {
        Some(p) => elapsed > sat_sub(p, b),
        None => true,
    }
}

/// Toggling pause twice returns a playing or paused video to where it was;
/// an ended or failed video is left as it is.
pub proof fn lemma_toggle_pause_twice(state: PlaybackState)
    ensures
        (state == PlaybackState::Playing || state == PlaybackState::Paused) ==> spec_toggle_pause_transition(
            spec_toggle_pause_transition(state).0,
        ).0 == state,
        (state == PlaybackState::Ended || state == PlaybackState::Error) ==> spec_toggle_pause_transition(
            state,
        ) == (state, false),
{
}

/// Resuming undoes pausing: a playing video that is paused and then resumed
/// plays again, and a paused one that is resumed and paused again is paused.
pub proof fn lemma_pause_resume_inverse(state: PlaybackState)
    ensures
        state == PlaybackState::Playing ==> spec_resume_transition(
            spec_pause_transition(state).0,
        ).0 == state,
        state == PlaybackState::Paused ==> spec_pause_transition(
            spec_resume_transition(state).0,
        ).0 == state,
{
}

/// After a seek the video is playing or paused, never ended or failed, and a
/// paused video stays paused.
pub proof fn lemma_seek_revives(state: PlaybackState)
    ensures
        spec_seek_transition(state) == PlaybackState::Playing || spec_seek_transition(state)
            == PlaybackState::Paused,
        state == PlaybackState::Paused <==> spec_seek_transition(state) == PlaybackState::Paused,
{
}

/// Once due, the first frame of a stream (whose time is the base) is shown
/// at once, whatever the clock says.
pub proof fn lemma_first_frame_due(pts: u128, elapsed: u128)
    ensures
        spec_frame_due(pts, Some(pts), elapsed),
{
}

/// A frame that is due stays due while the clock moves on, in both the
/// single player and the grid.
pub proof fn lemma_frame_due_stays_due(next_pts: u128, base: Option<u128>, elapsed: u128, later: u128)
    requires
        elapsed <= later,
    ensures
        spec_frame_due(next_pts, base, elapsed) ==> spec_frame_due(next_pts, base, later),
        spec_grid_frame_due(next_pts, base, elapsed) ==> spec_grid_frame_due(next_pts, base, later),
{
}

/// A later frame is never due before an earlier one.
pub proof fn lemma_frames_due_in_order(first: u128, second: u128, base: Option<u128>, elapsed: u128)
    requires
        first <= second,
    ensures
        spec_frame_due(second, base, elapsed) ==> spec_frame_due(first, base, elapsed),
        spec_grid_frame_due(second, base, elapsed) ==> spec_grid_frame_due(first, base, elapsed),
{
}

/// A pause request never starts a video, and changes nothing unless the
/// video is playing; the flag says whether the state changed.
pub proof fn lemma_pause_only_stops_playing(state: PlaybackState)
    ensures
        spec_pause_transition(state).0 != PlaybackState::Playing,
        state != PlaybackState::Playing ==> spec_pause_transition(state) == (state, false),
        spec_pause_transition(state).1 <==> spec_pause_transition(state).0 != state,
{
}

/// A resume request never pauses a video, and changes nothing unless the
/// video is paused; the flag says whether the state changed.
pub proof fn lemma_resume_only_starts_paused(state: PlaybackState)
    ensures
        spec_resume_transition(state).0 != PlaybackState::Paused,
        state != PlaybackState::Paused ==> spec_resume_transition(state) == (state, false),
        spec_resume_transition(state).1 <==> spec_resume_transition(state).0 != state,
{
}

/// Toggling moves only between playing and paused: it leaves an ended or
/// failed video alone, and otherwise lands on the other of the two.
pub proof fn lemma_toggle_swaps_playing_and_paused(state: PlaybackState)
    ensures
        (state == PlaybackState::Playing || state == PlaybackState::Paused) ==> {
            &&& spec_toggle_pause_transition(state).1
            &&& spec_toggle_pause_transition(state).0 != state
            &&& (spec_toggle_pause_transition(state).0 == PlaybackState::Playing
                || spec_toggle_pause_transition(state).0 == PlaybackState::Paused)
        },
        (state == PlaybackState::Ended || state == PlaybackState::Error)
            ==> spec_toggle_pause_transition(state) == (state, false),
{
}

/// A seek keeps a playing or paused video as it was.
pub proof fn lemma_seek_keeps_running_state(state: PlaybackState)
    ensures
        (state == PlaybackState::Playing || state == PlaybackState::Paused) ==> spec_seek_transition(
            state,
        ) == state,
{
}

/// Moving back never goes before the start, and moves by the requested
/// amount where it can.
pub proof fn lemma_seek_back_positions(position: u128, amount: u128)
    ensures
        spec_sat_sub(position, amount) <= position,
        position >= amount ==> spec_sat_sub(position, amount) + amount == position,
        position < amount ==> spec_sat_sub(position, amount) == 0,
{
}

/// Playback ends only once no frame is buffered and the decoder has closed
/// and drained its queue, and then as soon as the clock has passed the last
/// frame shown (or at once when none was shown); while the clock has not
/// passed the last frame shown, playback goes on.
pub proof fn lemma_playback_end_law(
    current_pts: Option<u128>,
    base: Option<u128>,
    elapsed: u128,
    next_buffered: bool,
    queue_closed: bool,
    queue_empty: bool,
)
    ensures
        spec_playback_ended(current_pts, base, elapsed, next_buffered, queue_closed, queue_empty)
            ==> !next_buffered && queue_closed && queue_empty,
        !next_buffered && queue_closed && queue_empty && current_pts is None ==> spec_playback_ended(
            current_pts,
            base,
            elapsed,
            next_buffered,
            queue_closed,
            queue_empty,
        ),
        current_pts is Some && spec_playback_ended(
            current_pts,
            base,
            elapsed,
            next_buffered,
            queue_closed,
            queue_empty,
        ) ==> spec_frame_due(current_pts.unwrap(), base, elapsed),
{
}

} // verus!
