use vstd::prelude::*;

verus! {

/// The bot's in-memory session state.
///
/// `voice_active` records whether the watched voice channel is currently
/// occupied; `announce_channel` is the text channel that receives
/// announcements, `None` until the arming command has been seen.
#[derive(Clone, Copy)]
pub struct SessionState {
    pub voice_active: bool,
    pub announce_channel: Option<u64>,
}

impl SessionState {
    /// The session is armed once an announce channel has been chosen.
    pub open spec fn armed(self) -> bool {
        self.announce_channel is Some
    }

    /// A fresh session: not active, not armed.
    pub fn new() -> (s: Self)
        ensures
            !s.voice_active,
            s.announce_channel is None,
    {
        SessionState { voice_active: false, announce_channel: None }
    }

    /// Unconditionally overwrites the target channel for announcements.
    pub fn set_announce_channel(&mut self, channel: u64)
        ensures
            final(self).announce_channel == Some(channel),
            final(self).voice_active == old(self).voice_active,
    {
        self.announce_channel = Some(channel);
    }

    /// Records that the voice channel is occupied.
    pub fn mark_active(&mut self)
        ensures
            final(self).voice_active,
            final(self).announce_channel == old(self).announce_channel,
    {
        self.voice_active = true;
    }

    /// Records that the voice channel is empty again.
    pub fn mark_inactive(&mut self)
        ensures
            !final(self).voice_active,
            final(self).announce_channel == old(self).announce_channel,
    {
        self.voice_active = false;
    }

    /// True exactly when an announce channel has been set.
    pub fn is_armed(&self) -> (r: bool)
        ensures
            r == self.armed(),
    {
        self.announce_channel.is_some()
    }
}

} // verus!
