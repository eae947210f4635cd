use vstd::prelude::*;
use vstd::string::StringExecFns;

verus! {

/// The fixed confirmation sent after the arming command.
pub open spec fn spec_confirmation() -> Seq<char> {
    "Bot will now announce voice events to this channel!"@
}

/// The announcement body for a voice channel with the given name.
pub open spec fn spec_announcement_text(name: Seq<char>) -> Seq<char> {
    "Someone joined the \""@ + name + "\" voice channel."@
}

/// The placeholder used when the voice channel's name cannot be found.
pub open spec fn spec_unknown_name() -> Seq<char> {
    "<unknown>"@
}

/// The confirmation reply to the arming command.
pub fn confirmation_text() -> (r: String)
    ensures
        r@ == spec_confirmation(),
{
    String::from_str("Bot will now announce voice events to this channel!")
}

/// Builds the announcement body around the voice channel's name.
pub fn announcement_text(name: &str) -> (r: String)
    ensures
        r@ == spec_announcement_text(name@),
{
    let mut body = String::from_str("Someone joined the \"");
    body.append(name);
    body.append("\" voice channel.");
    body
}

/// The name to announce: the one the lookup found, or the placeholder when
/// it found none.
pub fn announced_name(found: Option<String>) -> (r: String)
    ensures
        found matches Some(name) ==> r@ == name@,
        found is None ==> r@ == spec_unknown_name(),
{
    match found {
        Some(name) => name,
        None => String::from_str("<unknown>"),
    }
}

} // verus!
