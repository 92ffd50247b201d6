//! Decisions behind the live-concert playback controls: pausing and resuming, dragging the
//! seek slider, and restarting a looped concert.

use vstd::prelude::*;

verus! {

/// Least time between two loop restarts of a concert, in milliseconds.
pub const LOOP_RESTART_COOLDOWN_MS: u64 = 1000;

/// A command for the live view controller.
#[derive(Clone, Copy, Debug, PartialEq, Eq, Structural)]
pub enum LivePauseCommand {
    Pause,
    Resume,
}

/// Who pauses or resumes the concert while the seek slider is dragged.
#[derive(Clone, Copy, Debug, PartialEq, Eq, Structural)]
pub enum DragAction {
    /// Nothing to do.
    Nothing,
    /// Pause (or resume) through the live view controller.
    ViewController,
    /// Pause (or resume) through the director.
    Director,
}

/// Pause or resume for the live view controller's state: a playing concert (state 0) is
/// paused, a paused one (state 1) resumed; without a live view controller, or in any other
/// state, nothing is done and the toggle reports failure.
pub fn toggle_live_pause(view_state: Option<i32>) -> (r: Option<LivePauseCommand>)
    ensures
        view_state == Some(0i32) <==> r == Some(LivePauseCommand::Pause),
        view_state == Some(1i32) <==> r == Some(LivePauseCommand::Resume),
        r is None <==> !(view_state == Some(0i32) || view_state == Some(1i32)),
{
    match view_state {
        Some(0) => Some(LivePauseCommand::Pause),
        Some(1) => Some(LivePauseCommand::Resume),
        _ => None,
    }
}

/// State kept while the seek slider of a concert is dragged.
pub struct LiveDragState {
    /// The concert was paused (or had no director) when the drag began.
    pub was_paused: bool,
    pub in_progress: bool,
    /// When the concert last restarted its loop, in milliseconds since the epoch.
    pub last_loop_restart_ms: u64,
}

impl LiveDragState {
    /// No drag in progress, no loop restart yet.
    pub fn new() -> (r: Self)
        ensures !r.was_paused, !r.in_progress, r.last_loop_restart_ms == 0,
    {
        LiveDragState { was_paused: false, in_progress: false, last_loop_restart_ms: 0 }
    }
}

/// Who pauses (or resumes) a concert that is `playing`: nobody without a director or when
/// it is not playing, else the live view controller when there is one, else the director.
pub open spec fn drag_pause_action(director_present: bool, playing: bool, has_view_controller: bool) -> DragAction {
    if director_present && playing {
        if has_view_controller { DragAction::ViewController } else { DragAction::Director }
    } else {
        DragAction::Nothing
    }
}

/// Starts a drag: remembers whether the concert was paused (a missing director counts as
/// paused) and pauses a playing concert, through the live view controller when there is
/// one, else through the director.
pub fn begin_live_drag(
    state: &mut LiveDragState,
    director_present: bool,
    director_paused: bool,
    has_view_controller: bool,
) -> (r: DragAction)
    ensures
        final(state).was_paused == (!director_present || director_paused),
        final(state).in_progress,
        final(state).last_loop_restart_ms == old(state).last_loop_restart_ms,
        r == drag_pause_action(director_present, !director_paused, has_view_controller),
{
    let was_paused = if !director_present { true } else { director_paused };
    state.was_paused = was_paused;
    let action = if director_present && !was_paused {
        if has_view_controller { DragAction::ViewController } else { DragAction::Director }
    } else {
        DragAction::Nothing
    };
    state.in_progress = true;
    action
}

/// Ends a drag: a concert that was playing when the drag began is resumed, through the
/// live view controller when there is one, else through the director; the drag state is
/// cleared.
pub fn end_live_drag(state: &mut LiveDragState, director_present: bool, has_view_controller: bool) -> (r: DragAction)
    ensures
        !final(state).was_paused,
        !final(state).in_progress,
        final(state).last_loop_restart_ms == old(state).last_loop_restart_ms,
        r == drag_pause_action(director_present, !old(state).was_paused, has_view_controller),
{
    let resume = !state.was_paused;
    let action = if director_present && resume {
        if has_view_controller { DragAction::ViewController } else { DragAction::Director }
    } else {
        DragAction::Nothing
    };
    state.in_progress = false;
    state.was_paused = false;
    action
}

/// Forgets any drag in progress.
pub fn reset_live_drag_state(state: &mut LiveDragState)
    ensures
        !final(state).was_paused,
        !final(state).in_progress,
        final(state).last_loop_restart_ms == old(state).last_loop_restart_ms,
{
    state.was_paused = false;
    state.in_progress = false;
}

/// Whether moving the playback position must pause the concert around the move and resume
/// it after: only when no drag is in progress and the concert is playing.
pub fn seek_needs_pause(state: &LiveDragState, director_paused: bool) -> (r: bool)
    ensures r == (!state.in_progress && !director_paused),
{
    !state.in_progress && !director_paused
}

/// Whether a concert that reached its loop point may restart now, at `now_ms`: only when
/// a full cooldown passed since the last restart (a clock that went back counts as a full
/// cooldown). A restart is recorded at `now_ms`.
pub fn loop_restart_allowed(state: &mut LiveDragState, now_ms: u64) -> (r: bool)
    ensures
        r == (now_ms < old(state).last_loop_restart_ms || now_ms - old(state).last_loop_restart_ms
            >= LOOP_RESTART_COOLDOWN_MS),
        r ==> final(state).last_loop_restart_ms == now_ms,
        !r ==> final(state).last_loop_restart_ms == old(state).last_loop_restart_ms,
        final(state).was_paused == old(state).was_paused,
        final(state).in_progress == old(state).in_progress,
{
    let last = state.last_loop_restart_ms;
    let elapsed = if now_ms >= last { now_ms - last } else { LOOP_RESTART_COOLDOWN_MS };
    if elapsed < LOOP_RESTART_COOLDOWN_MS {
        return false;
    }
    state.last_loop_restart_ms = now_ms;
    true
}

/// A drag that pauses a playing concert resumes it when it ends, through the same path;
/// a drag over a paused concert, or begun without a director, resumes nothing.
pub proof fn law_drag_restores_playback(
    director_present: bool,
    director_paused: bool,
    has_view_controller: bool,
)
    ensures
        drag_pause_action(true, !(!director_present || director_paused), has_view_controller)
            == drag_pause_action(director_present, !director_paused, has_view_controller),
        (!director_present || director_paused) ==> drag_pause_action(true, !(!director_present
            || director_paused), has_view_controller) == DragAction::Nothing,
{
}

} // verus!
