//! The playback gate: single-voice discipline over playback handles.
//!
//! At most one handle is held at a time, the token of the clip triggered last.
//! Whether that clip is still sounding is a question only the audio engine
//! can answer, so the caller samples the engine and passes the answer in;
//! every decision taken over that answer is verified here.

use vstd::prelude::*;

verus! {

/// Holds at most one playback handle; a new trigger is permitted only when
/// no handle is held or the held one is no longer playing.
pub struct PlaybackGate<H> {
    held: Option<H>,
}

impl<H> PlaybackGate<H> {
    /// The handle currently held, if any.
    pub closed spec fn spec_held(&self) -> Option<H> {
        self.held
    }

    /// Whether a handle is held.
    pub open spec fn holds_handle(&self) -> bool {
        self.spec_held() is Some
    }

    /// What `can_trigger` decides from the sampled engine state: a trigger
    /// is permitted unless a held clip is still playing.
    pub open spec fn spec_can_trigger(&self, held_playing: bool) -> bool {
        !self.holds_handle() || !held_playing
    }

    /// A fresh gate holds nothing.
    pub fn new() -> (g: Self)
        ensures
            !g.holds_handle(),
    {
        PlaybackGate { held: None }
    }

    /// Decides whether a new clip may be triggered. `held_playing` is the
    /// engine's answer for the held handle; it is ignored when no handle
    /// is held.
    pub fn can_trigger(&self, held_playing: bool) -> (r: bool)
        ensures
            r == self.spec_can_trigger(held_playing),
    {
        match &self.held {
            Option::None => true,
            Option::Some(_) => !held_playing,
        }
    }

    /// Records the handle of a clip that was just triggered, dropping any
    /// handle held before.
    pub fn record(&mut self, handle: H)
        ensures
            final(self).spec_held() == Some(handle),
            final(self).holds_handle(),
    {
        self.held = Some(handle);
    }

    /// Borrows the held handle.
    pub fn current(&self) -> (r: &Option<H>)
        ensures
            *r == self.spec_held(),
    {
        &self.held
    }
}

/// The single-voice law: while a handle is held whose sampled state
/// is still playing, no new trigger is permitted; triggering reopens only
/// once the held clip has completed (or the handle was replaced or
/// dropped), never while it sounds.
pub proof fn lemma_single_voice<H>(g: PlaybackGate<H>, held_playing: bool)
    requires
        g.holds_handle(),
        held_playing,
    ensures
        !g.spec_can_trigger(held_playing),
{
}

} // verus!
