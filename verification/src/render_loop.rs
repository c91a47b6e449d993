//! The browser backend's loop controller. The browser has no loop as a
//! stack frame: each frame's callback re-arms itself by requesting the next
//! animation frame, and the controller owns that scheduling state. It is
//! either `Paused` (no frame request outstanding) or `Playing` (exactly one
//! outstanding), and exposes explicit play/pause/toggle transitions so the
//! host can suspend and resume the loop without destroying state.
//!
//! The host actions themselves — requesting and cancelling an animation
//! frame, and invoking the user callback — happen outside. The controller
//! decides; the host plumbing performs the action and hands the outcome
//! (the granted frame identifier, or a refusal) back in.

use vstd::prelude::*;

use crate::app::App;
use crate::sink::EventSink;

verus! {

/// The loop-scheduling state: the identifier of the outstanding
/// animation-frame request (`None` means paused) and whether `run` has
/// installed a user callback. The callback itself, and the re-armed frame
/// closure, live with the host plumbing that owns this controller.
#[derive(Clone, Copy, PartialEq, Eq, Structural, Debug)]
pub struct RenderLoop {
    pub animation_id: Option<i32>,
    pub callback_installed: bool,
}

impl RenderLoop {
    /// The controller is playing when a frame request is outstanding.
    pub open spec fn playing(self) -> bool {
        self.animation_id is Some
    }

    /// A frame request is outstanding only when a callback is installed to
    /// serve it. Constructors establish this and every transition keeps it.
    pub open spec fn wf(self) -> bool {
        self.playing() ==> self.callback_installed
    }

    /// The state `pause` leaves: no outstanding request, the callback kept.
    pub open spec fn paused_state(self) -> RenderLoop {
        RenderLoop { animation_id: None, ..self }
    }

    /// The state `run` leaves before it plays: the callback installed.
    pub open spec fn installed_state(self) -> RenderLoop {
        RenderLoop { callback_installed: true, ..self }
    }

    /// The state a finished frame leaves, given what the host granted. A
    /// next frame is requested only when a callback is installed to serve
    /// it; a refused request leaves the controller paused rather than
    /// failing, since the host may still schedule frames through `play`.
    pub open spec fn armed_state(self, granted: Option<i32>) -> RenderLoop {
        RenderLoop {
            animation_id: if self.callback_installed {
                granted
            } else {
                None
            },
            ..self
        }
    }

    /// The state `play` leaves: from `Playing` it changes nothing (the
    /// guard against double-registration), from `Paused` it runs one frame
    /// and arms the next with whatever the host granted.
    pub open spec fn play_state(self, granted: Option<i32>) -> RenderLoop {
        if self.playing() {
            self
        } else {
            self.armed_state(granted)
        }
    }

    /// The state `play_pause` leaves: the toggle of the current state.
    pub open spec fn play_pause_state(self, granted: Option<i32>) -> RenderLoop {
        if self.playing() {
            self.paused_state()
        } else {
            self.play_state(granted)
        }
    }

    /// A fresh controller: paused, with or without a callback already
    /// installed.
    pub fn new(callback_installed: bool) -> (controller: RenderLoop)
        ensures
            controller == (RenderLoop { animation_id: None, callback_installed }),
            controller.wf(),
    {
        RenderLoop { animation_id: None, callback_installed }
    }

    /// Whether no frame request is outstanding.
    pub fn is_paused(&self) -> (paused: bool)
        ensures
            paused == !self.playing(),
    {
        self.animation_id.is_none()
    }

    /// Installs the user callback; `run` does this once and then plays.
    pub fn install_callback(&mut self)
        ensures
            *final(self) == old(self).installed_state(),
            final(self).wf(),
    {
        self.callback_installed = true;
    }

    /// Moves to `Paused` and hands back the request the host must cancel:
    /// the outstanding identifier if there was one. A no-op on a paused
    /// controller, which has nothing to cancel.
    pub fn pause(&mut self) -> (cancel: Option<i32>)
        ensures
            *final(self) == old(self).paused_state(),
            cancel == old(self).animation_id,
            final(self).wf(),
    {
        let cancel = self.animation_id;
        self.animation_id = None;
        cancel
    }

    /// The first half of one frame invocation: when a callback is
    /// installed, the sink's accumulation becomes the application's current
    /// batch and the sink is emptied, so the callback about to run observes
    /// exactly the events that arrived before this moment. Returns whether
    /// the host must now invoke the callback. Without a callback the frame
    /// touches nothing.
    pub fn begin_frame(&self, app: &mut App, sink: &mut EventSink) -> (invoke: bool)
        ensures
            invoke == self.callback_installed,
            self.callback_installed ==> {
                &&& final(app).events@ == old(sink)@
                &&& final(app).surface == old(app).surface
                &&& final(sink)@ == Seq::<crate::events::Event>::empty()
            },
            !self.callback_installed ==> *final(app) == *old(app) && *final(sink) == *old(sink),
    {
        if self.callback_installed {
            app.main_loop(sink);
            true
        } else {
            false
        }
    }

    /// Whether the finished frame must request the next one: only a
    /// controller with a callback re-arms itself.
    pub fn wants_next_frame(&self) -> (want: bool)
        ensures
            want == self.callback_installed,
    {
        self.callback_installed
    }

    /// The second half of one frame invocation: records what the host
    /// granted. `Some(id)` keeps the loop playing under that identifier; a
    /// refusal (`None`), or a controller with no callback to serve a frame,
    /// leaves it paused.
    pub fn finish_frame(&mut self, granted: Option<i32>)
        ensures
            *final(self) == old(self).armed_state(granted),
            final(self).wf(),
    {
        self.animation_id = if self.callback_installed {
            granted
        } else {
            None
        };
    }
}

/// Law: `pause` always leaves the controller paused, whatever state it was
/// in, and keeps the installed callback.
pub proof fn lemma_pause_is_paused(controller: RenderLoop)
    ensures
        !controller.paused_state().playing(),
        controller.paused_state().callback_installed == controller.callback_installed,
{
}

/// Law: `play` from a paused state leaves the controller playing, provided
/// a callback is installed to serve the frames and the host grants the
/// frame request. (A paused controller with no callback installed stays
/// paused: there is nothing for a frame to run.)
pub proof fn lemma_play_from_paused_plays(controller: RenderLoop, granted: Option<i32>)
    requires
        !controller.playing(),
        controller.callback_installed,
        granted is Some,
    ensures
        controller.play_state(granted).playing(),
{
}

/// Law: `play_pause` is its own inverse — two toggles return the
/// controller to the playing/paused state it started from, up to the one
/// synchronous frame the first toggle runs when it starts from `Paused` —
/// provided the host grants each frame request made. From `Paused` the
/// whole controller state comes back; from `Playing` the outstanding
/// request carries whatever identifier the host granted last.
pub proof fn lemma_play_pause_involution(controller: RenderLoop, g1: Option<i32>, g2: Option<i32>)
    requires
        controller.wf(),
        g1 is Some,
        g2 is Some,
    ensures
        controller.play_pause_state(g1).play_pause_state(g2).playing() == controller.playing(),
        controller.play_pause_state(g1).play_pause_state(g2).callback_installed
            == controller.callback_installed,
        controller.play_pause_state(g1).play_pause_state(g2).wf(),
        !controller.playing() ==> controller.play_pause_state(g1).play_pause_state(g2)
            == controller,
{
}

} // verus!
