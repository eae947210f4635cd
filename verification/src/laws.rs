use vstd::prelude::*;

use crate::command::spec_message_step;
use crate::command::spec_trigger;
use crate::session::SessionState;
use crate::voice::VoiceObservation;
use crate::voice::spec_emissions;
use crate::voice::spec_occupancy;
use crate::voice::spec_session_after;
use crate::voice::spec_voice_announces;
use crate::voice::spec_voice_step;

verus! {

/// The occupancy each event of a sequence counts as.
pub open spec fn spec_occupancies(events: Seq<Option<VoiceObservation>>) -> Seq<nat> {
    events.map_values(|e: Option<VoiceObservation>| spec_occupancy(e))
}

/// How many maximal contiguous runs of positive occupancy begin in `occs`,
/// counting a run as beginning when it follows a zero or, for the first
/// event, an inactive initial state.
pub open spec fn spec_run_starts(active: bool, occs: Seq<nat>) -> nat
    decreases occs.len(),
{
    if occs.len() == 0 {
        0
    } else {
        (if occs[0] > 0 && !active {
            1nat
        } else {
            0nat
        }) + spec_run_starts(occs[0] > 0, occs.drop_first())
    }
}

/// On an armed session, exactly one announcement is emitted per maximal
/// contiguous run of positive occupancy that follows a run of zero
/// occupancy or the initial state: the emissions are as many as the run
/// starts.
pub proof fn lemma_one_announcement_per_run(s: SessionState, events: Seq<Option<VoiceObservation>>)
    requires
        s.armed(),
    ensures
        spec_emissions(s, events).len() == spec_run_starts(s.voice_active, spec_occupancies(events)),
    decreases events.len(),
{
    if events.len() == 0 {
    } else {
        let s1 = spec_voice_step(s, events[0]);
        let occs = spec_occupancies(events);
        assert(occs[0] == spec_occupancy(events[0]));
        assert(s1.armed());
        assert(s1.voice_active == (spec_occupancy(events[0]) > 0));
        lemma_one_announcement_per_run(s1, events.drop_first());
        assert(occs.drop_first() =~= spec_occupancies(events.drop_first()));
    }
}

/// Repeated positive-occupancy events on a session that is already active
/// emit nothing and leave the session as it is.
pub proof fn lemma_active_absorbs_joins(s: SessionState, events: Seq<Option<VoiceObservation>>)
    requires
        s.armed(),
        s.voice_active,
        forall|i: int| 0 <= i < events.len() ==> spec_occupancy(#[trigger] events[i]) > 0,
    ensures
        spec_emissions(s, events).len() == 0,
        spec_session_after(s, events) == s,
    decreases events.len(),
{
    if events.len() == 0 {
    } else {
        assert(spec_occupancy(events[0]) > 0);
        let s1 = spec_voice_step(s, events[0]);
        assert(s1 == s);
        assert(forall|i: int|
            0 <= i < events.drop_first().len() ==> spec_occupancy(
                #[trigger] events.drop_first()[i],
            ) > 0);
        lemma_active_absorbs_joins(s, events.drop_first());
    }
}

/// Before the arming command has been seen, every voice event is a no-op:
/// no announcement and no change of state, whatever the occupancy.
pub proof fn lemma_unarmed_ignores_voice(s: SessionState, events: Seq<Option<VoiceObservation>>)
    requires
        !s.armed(),
    ensures
        spec_emissions(s, events).len() == 0,
        spec_session_after(s, events) == s,
    decreases events.len(),
{
    if events.len() == 0 {
    } else {
        lemma_unarmed_ignores_voice(s, events.drop_first());
    }
}

/// Every announcement a sequence of voice events emits targets the
/// session's announce channel, which the voice events never change.
pub proof fn lemma_emissions_target_announce_channel(
    s: SessionState,
    events: Seq<Option<VoiceObservation>>,
)
    ensures
        spec_session_after(s, events).announce_channel == s.announce_channel,
        forall|i: int|
            0 <= i < spec_emissions(s, events).len() ==> (#[trigger] spec_emissions(s, events)[i]).text_channel
                == s.announce_channel->Some_0,
    decreases events.len(),
{
    if events.len() == 0 {
    } else {
        let s1 = spec_voice_step(s, events[0]);
        lemma_emissions_target_announce_channel(s1, events.drop_first());
        let head_len: int = if spec_voice_announces(s, events[0]) {
            1
        } else {
            0
        };
        let rest = spec_emissions(s1, events.drop_first());
        assert forall|i: int| 0 <= i < spec_emissions(s, events).len() implies (#[trigger] spec_emissions(
            s,
            events,
        )[i]).text_channel == s.announce_channel->Some_0 by {
            if i >= head_len {
                assert(spec_emissions(s, events)[i] == rest[i - head_len]);
            }
        }
    }
}

/// Arming twice redirects the bot: after the trigger arrives in channel
/// `a` and then in channel `b`, announcements go to `b` alone, whatever
/// voice events follow.
pub proof fn lemma_rearm_redirects(
    s: SessionState,
    a: u64,
    b: u64,
    events: Seq<Option<VoiceObservation>>,
)
    ensures
        spec_message_step(spec_message_step(s, spec_trigger(), a), spec_trigger(), b).announce_channel
            == Some(b),
        forall|i: int|
            0 <= i < spec_emissions(
                spec_message_step(spec_message_step(s, spec_trigger(), a), spec_trigger(), b),
                events,
            ).len() ==> (#[trigger] spec_emissions(
                spec_message_step(spec_message_step(s, spec_trigger(), a), spec_trigger(), b),
                events,
            )[i]).text_channel == b,
{
    let armed = spec_message_step(spec_message_step(s, spec_trigger(), a), spec_trigger(), b);
    lemma_emissions_target_announce_channel(armed, events);
}

} // verus!
