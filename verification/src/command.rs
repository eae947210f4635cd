use vstd::prelude::*;
use vstd::string::StringExecFns;

use crate::session::SessionState;

verus! {

/// The one message body that arms the bot.
pub open spec fn spec_trigger() -> Seq<char> {
    "~voice_notify"@
}

/// The session state after one text message: a message whose body equals
/// the trigger arms the session for the channel it was sent in; any other
/// message changes nothing.
pub open spec fn spec_message_step(s: SessionState, content: Seq<char>, channel: u64) -> SessionState {
    if content == spec_trigger() {
        SessionState { announce_channel: Some(channel), ..s }
    } else {
        s
    }
}

/// True exactly when a message body is the arming trigger.
pub fn is_trigger(content: &str) -> (r: bool)
    ensures
        r == (content@ == spec_trigger()),
{
    let body = String::from_str(content);
    let trigger = String::from_str("~voice_notify");
    body == trigger
}

/// Applies one text message to the session.
///
/// Returns whether a confirmation reply is owed to the message's channel:
/// exactly when the body is the trigger, in which case that channel becomes
/// the announce channel. Everything else about the session is untouched.
pub fn handle_message(state: &mut SessionState, content: &str, channel: u64) -> (reply: bool)
    ensures
        *final(state) == spec_message_step(*old(state), content@, channel),
        reply == (content@ == spec_trigger()),
{
    if is_trigger(content) {
        state.set_announce_channel(channel);
        true
    } else {
        false
    }
}

} // verus!
