//! An application/event-loop abstraction that runs the same user callback
//! code on two host environments: a native platform with a blocking,
//! synchronously polled window loop, and a browser host whose loop is
//! re-armed one frame at a time by an animation-frame request.
//!
//! The crate models the parts both backends share: the normalized event
//! vocabulary ([`events`]), the buffer that decouples asynchronous input
//! producers from the per-frame consumer ([`sink`]), the application state
//! with its drawable surface and current event batch ([`app`]), and the
//! browser backend's play/pause loop controller ([`render_loop`]).
//! Host plumbing (window and canvas creation, event polling, frame
//! scheduling) stays outside; it hands plain values in and takes plain
//! values back.

use vstd::prelude::*;

pub mod app;
pub mod events;
pub mod render_loop;
pub mod sink;

verus! {

/// Immutable creation parameters for an application: the window or canvas
/// title, the initial drawable size in pixels, and the vsync policy.
/// Consumed once at construction.
pub struct AppConfig {
    pub title: String,
    pub size: (u32, u32),
    pub vsync: bool,
}

impl AppConfig {
    /// Builds a configuration with the given title and size; vsync is on by
    /// default.
    pub fn new(title: String, size: (u32, u32)) -> (config: AppConfig)
        ensures
            config.title@ == title@,
            config.size == size,
            config.vsync == true,
    {
        AppConfig { title, size, vsync: true }
    }
}

} // verus!
