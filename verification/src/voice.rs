use vstd::prelude::*;

use crate::session::SessionState;

verus! {

/// What the membership lookup reported for one voice event: the voice
/// channel the event referred to and how many members are in it now.
#[derive(Clone, Copy, PartialEq, Eq, Debug)]
pub struct VoiceObservation {
    pub voice_channel: u64,
    pub occupancy: usize,
}

/// A request to post the one-time announcement: which text channel to post
/// to, and which voice channel was joined.
#[derive(Clone, Copy, PartialEq, Eq, Debug)]
pub struct Announcement {
    pub text_channel: u64,
    pub voice_channel: u64,
}

/// The occupancy a voice event counts as. A failed lookup (wrong channel
/// kind, lookup error, or no channel at all) counts as zero, never as an
/// error.
pub open spec fn spec_occupancy(lookup: Option<VoiceObservation>) -> nat {
    match lookup {
        Some(obs) => obs.occupancy as nat,
        None => 0,
    }
}

/// The session state after one voice event.
pub open spec fn spec_voice_step(s: SessionState, lookup: Option<VoiceObservation>) -> SessionState {
    if !s.armed() {
        s
    } else if spec_occupancy(lookup) == 0 {
        SessionState { voice_active: false, ..s }
    } else {
        SessionState { voice_active: true, ..s }
    }
}

/// Whether one voice event emits an announcement: only an armed session,
/// only on the transition from empty to occupied.
pub open spec fn spec_voice_announces(s: SessionState, lookup: Option<VoiceObservation>) -> bool {
    s.armed() && !s.voice_active && spec_occupancy(lookup) > 0
}

/// The announcement such an event emits.
pub open spec fn spec_announcement(s: SessionState, lookup: Option<VoiceObservation>) -> Announcement {
    Announcement {
        text_channel: s.announce_channel->Some_0,
        voice_channel: lookup->Some_0.voice_channel,
    }
}

/// Applies one voice-presence event to the session.
///
/// An unarmed session ignores the event. Otherwise occupancy zero (which a
/// failed lookup counts as) resets the active flag with no announcement;
/// a positive occupancy on an inactive session activates it and emits the
/// one announcement of the cycle; a positive occupancy on an already active
/// session changes nothing.
pub fn handle_voice_event(state: &mut SessionState, lookup: Option<VoiceObservation>) -> (ann: Option<
    Announcement,
>)
    ensures
        *final(state) == spec_voice_step(*old(state), lookup),
        ann is Some <==> spec_voice_announces(*old(state), lookup),
        ann is Some ==> ann->Some_0 == spec_announcement(*old(state), lookup),
{
    let target = match state.announce_channel {
        Some(t) => t,
        None => {
            return None;
        },
    };
    let (voice_channel, occupancy) = match lookup {
        Some(obs) => (obs.voice_channel, obs.occupancy),
        None => (0u64, 0usize),
    };
    if occupancy == 0 {
        state.mark_inactive();
        None
    } else if !state.voice_active {
        state.mark_active();
        Some(Announcement { text_channel: target, voice_channel })
    } else {
        None
    }
}

/// The session state after a whole sequence of voice events.
pub open spec fn spec_session_after(s: SessionState, events: Seq<Option<VoiceObservation>>) -> SessionState
    decreases events.len(),
{
    if events.len() == 0 {
        s
    } else {
        spec_session_after(spec_voice_step(s, events[0]), events.drop_first())
    }
}

/// The announcements a sequence of voice events emits, in order.
pub open spec fn spec_emissions(s: SessionState, events: Seq<Option<VoiceObservation>>) -> Seq<Announcement>
    decreases events.len(),
{
    if events.len() == 0 {
        Seq::empty()
    } else {
        let head = if spec_voice_announces(s, events[0]) {
            seq![spec_announcement(s, events[0])]
        } else {
            Seq::empty()
        };
        head + spec_emissions(spec_voice_step(s, events[0]), events.drop_first())
    }
}

/// Applies a sequence of voice events in order and collects the
/// announcements they emit.
pub fn run_voice_events(state: &mut SessionState, events: &Vec<Option<VoiceObservation>>) -> (anns: Vec<
    Announcement,
>)
    ensures
        *final(state) == spec_session_after(*old(state), events@),
        anns@ == spec_emissions(*old(state), events@),
{
    let ghost s0 = *state;
    let mut cur: SessionState = *state;
    let mut anns: Vec<Announcement> = Vec::new();
    let mut i: usize = 0;
    proof {
        assert(events@.skip(0) =~= events@);
        assert(anns@ + spec_emissions(cur, events@) =~= spec_emissions(cur, events@));
    }
    while i < events.len()
        invariant
            i <= events.len(),
            spec_session_after(s0, events@) == spec_session_after(cur, events@.skip(i as int)),
            spec_emissions(s0, events@) == anns@ + spec_emissions(cur, events@.skip(i as int)),
        decreases events.len() - i,
    {
        let ghost rest = events@.skip(i as int);
        let e = events[i];
        let ann = handle_voice_event(&mut cur, e);
        proof {
            assert(rest[0] == e);
            assert(rest.drop_first() =~= events@.skip(i as int + 1));
        }
        match ann {
            Some(a) => {
                anns.push(a);
                proof {
                    assert(anns@ + spec_emissions(cur, events@.skip(i as int + 1)) =~= spec_emissions(
                        s0,
                        events@,
                    ));
                }
            },
            None => {
                proof {
                    assert(anns@ + spec_emissions(cur, events@.skip(i as int + 1)) =~= spec_emissions(
                        s0,
                        events@,
                    ));
                }
            },
        }
        i = i + 1;
    }
    proof {
        assert(events@.skip(events@.len() as int) =~= Seq::<Option<VoiceObservation>>::empty());
    }
    *state = cur;
    anns
}

} // verus!
