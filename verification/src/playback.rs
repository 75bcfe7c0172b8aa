//! The playback controller's decision core. A still source is rendered once
//! and playback ends, whatever the loop flag says. For an animated source the
//! driver feeds this machine one event per step — a decoded frame, or the end
//! of the stream — and performs the action it returns: render the frame (then
//! pace by a fixed inter-frame delay), restart the stream from its first
//! frame, or stop.

use vstd::prelude::*;

verus! {

/// One observation made by the animated-playback driver.
#[derive(Clone, Copy, Debug, PartialEq, Eq, Structural)]
pub enum PlaybackEvent {
    /// The decoder produced the next frame.
    Frame,
    /// The stream has no more frames.
    End,
}

/// What the driver must do next.
#[derive(Clone, Copy, Debug, PartialEq, Eq, Structural)]
pub enum PlaybackAction {
    /// Clear the display region, render and emit the frame, then pace.
    Render,
    /// Reopen the stream and continue from its first frame.
    Restart,
    /// Playback is over.
    Stop,
}

/// The decision rule: every decoded frame is rendered; the end of the stream
/// restarts playback when looping is on and stops it otherwise.
pub open spec fn step_spec(ev: PlaybackEvent, loop_playback: bool) -> PlaybackAction {
    match ev {
        PlaybackEvent::Frame => PlaybackAction::Render,
        PlaybackEvent::End => if loop_playback {
            PlaybackAction::Restart
        } else {
            PlaybackAction::Stop
        },
    }
}

/// Decides the next action of animated playback.
pub fn playback_step(ev: PlaybackEvent, loop_playback: bool) -> (a: PlaybackAction)
    ensures
        a == step_spec(ev, loop_playback),
{
    match ev {
        PlaybackEvent::Frame => PlaybackAction::Render,
        PlaybackEvent::End => {
            if loop_playback {
                PlaybackAction::Restart
            } else {
                PlaybackAction::Stop
            }
        },
    }
}

/// The actions a whole event sequence produces, step by step.
pub open spec fn actions_of(events: Seq<PlaybackEvent>, loop_playback: bool) -> Seq<
    PlaybackAction,
> {
    events.map(|i: int, ev: PlaybackEvent| step_spec(ev, loop_playback))
}

/// How many of the actions render a frame.
pub open spec fn render_count(acts: Seq<PlaybackAction>) -> int
    decreases acts.len(),
{
    if acts.len() == 0 {
        0
    } else {
        render_count(acts.drop_last()) + if acts.last() == PlaybackAction::Render {
            1int
        } else {
            0int
        }
    }
}

proof fn lemma_render_count_all_renders(acts: Seq<PlaybackAction>)
    requires
        forall|i: int| 0 <= i < acts.len() ==> acts[i] == PlaybackAction::Render,
    ensures
        render_count(acts) == acts.len(),
    decreases acts.len(),
{
    if acts.len() > 0 {
        lemma_render_count_all_renders(acts.drop_last());
    }
}

/// A source of `n` frames is rendered exactly `n` times and each of its
/// frames exactly once; after the last frame, playback restarts immediately
/// when looping is on and terminates otherwise.
pub proof fn lemma_playback_frame_count(n: nat, loop_playback: bool)
    ensures
        ({
            let events = Seq::new(n, |i: int| PlaybackEvent::Frame).push(PlaybackEvent::End);
            let acts = actions_of(events, loop_playback);
            &&& acts.len() == n + 1
            &&& forall|i: int| 0 <= i < n ==> acts[i] == PlaybackAction::Render
            &&& acts.last() == (if loop_playback {
                PlaybackAction::Restart
            } else {
                PlaybackAction::Stop
            })
            &&& render_count(acts) == n
        }),
{
    let events = Seq::new(n, |i: int| PlaybackEvent::Frame).push(PlaybackEvent::End);
    let acts = actions_of(events, loop_playback);
    assert(forall|i: int| 0 <= i < n ==> events[i] == PlaybackEvent::Frame);
    assert(events.last() == PlaybackEvent::End);
    assert(acts.last() == step_spec(PlaybackEvent::End, loop_playback));
    let front = acts.drop_last();
    assert(forall|i: int| 0 <= i < front.len() ==> front[i] == PlaybackAction::Render);
    lemma_render_count_all_renders(front);
    assert(render_count(acts) == render_count(front) + if acts.last() == PlaybackAction::Render {
        1int
    } else {
        0int
    });
}

} // verus!
