use vstd::prelude::*;

verus! {

pub const AUDIO_IN_NOTE: &'static str = "I2S microphone scaffold reserved on GPIO12/13/11; capture pipeline not implemented yet";

pub const AUDIO_OUT_NOTE: &'static str = "I2S speaker scaffold reserved on GPIO14/16/15; playback pipeline not implemented yet";

/// The microphone path.
pub trait AudioInPort {
    fn readiness_note(&self) -> &'static str;

    fn announce_placeholder_ready(&mut self) -> Result<(), String>;
}

/// The speaker path.
pub trait AudioOutPort {
    fn readiness_note(&self) -> &'static str;

    fn announce_placeholder_ready(&mut self) -> Result<(), String>;
}

/// Holds the I2S controller for the microphone until capture exists.
pub struct AudioInPlaceholderAdapter<I2S> {
    controller: I2S,
    reservation_summary: String,
}

impl<I2S> AudioInPlaceholderAdapter<I2S> {
    /// Reserves `controller`; `reservation_summary` names the pins it holds.
    pub fn new(controller: I2S, reservation_summary: String) -> (adapter: Self)
        ensures
            adapter.summary()@ == reservation_summary@,
            adapter.reserved() == controller,
    {
        AudioInPlaceholderAdapter { controller, reservation_summary }
    }

    pub closed spec fn summary(&self) -> String {
        self.reservation_summary
    }

    pub closed spec fn reserved(&self) -> I2S {
        self.controller
    }

    /// The pins the placeholder holds.
    pub fn reservation_summary(&self) -> (s: &str)
        ensures
            s@ == self.summary()@,
    {
        self.reservation_summary.as_str()
    }

    /// The reserved controller.
    pub fn controller(&self) -> (c: &I2S)
        ensures
            *c == self.reserved(),
    {
        &self.controller
    }
}

impl<I2S> AudioInPort for AudioInPlaceholderAdapter<I2S> {
    fn readiness_note(&self) -> (note: &'static str)
        ensures
            note@ == AUDIO_IN_NOTE@,
    {
        AUDIO_IN_NOTE
    }

    fn announce_placeholder_ready(&mut self) -> (r: Result<(), String>)
        ensures
            r is Ok,
            final(self).summary() == old(self).summary(),
            final(self).reserved() == old(self).reserved(),
    {
        Ok(())
    }
}

/// Holds the I2S controller for the speaker until playback exists.
pub struct AudioOutPlaceholderAdapter<I2S> {
    controller: I2S,
    reservation_summary: String,
}

impl<I2S> AudioOutPlaceholderAdapter<I2S> {
    /// Reserves `controller`; `reservation_summary` names the pins it holds.
    pub fn new(controller: I2S, reservation_summary: String) -> (adapter: Self)
        ensures
            adapter.summary()@ == reservation_summary@,
            adapter.reserved() == controller,
    {
        AudioOutPlaceholderAdapter { controller, reservation_summary }
    }

    pub closed spec fn summary(&self) -> String {
        self.reservation_summary
    }

    pub closed spec fn reserved(&self) -> I2S {
        self.controller
    }

    /// The pins the placeholder holds.
    pub fn reservation_summary(&self) -> (s: &str)
        ensures
            s@ == self.summary()@,
    {
        self.reservation_summary.as_str()
    }

    /// The reserved controller.
    pub fn controller(&self) -> (c: &I2S)
        ensures
            *c == self.reserved(),
    {
        &self.controller
    }
}

impl<I2S> AudioOutPort for AudioOutPlaceholderAdapter<I2S> {
    fn readiness_note(&self) -> (note: &'static str)
        ensures
            note@ == AUDIO_OUT_NOTE@,
    {
        AUDIO_OUT_NOTE
    }

    fn announce_placeholder_ready(&mut self) -> (r: Result<(), String>)
        ensures
            r is Ok,
            final(self).summary() == old(self).summary(),
            final(self).reserved() == old(self).reserved(),
    {
        Ok(())
    }
}

} // verus!
