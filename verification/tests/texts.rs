use voice_notify::text::announced_name;
use voice_notify::text::announcement_text;
use voice_notify::text::confirmation_text;
use voice_notify::token::token_from_direct;

#[test]
fn announcement_names_the_voice_channel() {
    let body = announcement_text("General");
    assert_eq!(body, "Someone joined the \"General\" voice channel.");
}

#[test]
fn announcement_with_empty_name() {
    let body = announcement_text("");
    assert_eq!(body, "Someone joined the \"\" voice channel.");
}

#[test]
fn confirmation_is_the_fixed_reply() {
    assert_eq!(
        confirmation_text(),
        "Bot will now announce voice events to this channel!"
    );
}

#[test]
fn missing_name_falls_back_to_placeholder() {
    assert_eq!(announced_name(None), "<unknown>");
    assert_eq!(announced_name(Some(String::from("General"))), "General");
}

#[test]
fn direct_token_used_only_when_nonempty() {
    assert_eq!(
        token_from_direct(Some(String::from("abc"))),
        Some(String::from("abc"))
    );
    assert_eq!(token_from_direct(Some(String::new())), None);
    assert_eq!(token_from_direct(None), None);
}
