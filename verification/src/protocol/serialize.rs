use vstd::prelude::*;

use super::command::{
    AngleData, AngleEvent, Event, KeyData, KeyEvent, ListResponse, MessageData, MessageEvent,
    ProfilePayload, ProfileResponse, SettingsPayload, SettingsResponse,
};

verus! {

/// `e` is a message event of this type and text.
pub open spec fn is_message(e: Event, msg_type: Seq<char>, text: Seq<char>) -> bool {
    e matches Event::Message(m) && m.msg.msg_type@ == msg_type && m.msg.text@ == text
}

/// Frame a serialized event for the serial line: the JSON text followed by
/// a newline.
pub fn frame_line(json: String) -> (line: String)
    ensures
        line@ == json@.push('\n'),
{
    proof {
        reveal_strlit("\n");
    }
    let mut line = json;
    line.append("\n");
    line
}

/// Helper: create an angle position event.
pub fn angle_event(cur_pos: u16) -> (e: Event)
    ensures
        e == Event::Angle(AngleEvent { angle: AngleData { cur_pos } }),
{
    Event::Angle(AngleEvent { angle: AngleData { cur_pos } })
}

/// Helper: create a key event.
pub fn key_event(num: u8, state: &str) -> (e: Event)
    ensures
        e matches Event::Key(k) && k.key.num == num && k.key.state@ == state@,
{
    Event::Key(KeyEvent { key: KeyData { num, state: String::from_str(state) } })
}

/// Helper: create an info/error message event.
pub fn message_event(msg_type: &str, text: &str) -> (e: Event)
    ensures
        is_message(e, msg_type@, text@),
{
    Event::Message(
        MessageEvent {
            msg: MessageData { msg_type: String::from_str(msg_type), text: String::from_str(text) },
        },
    )
}

/// Helper: create a profile response.
pub fn profile_response(profile: ProfilePayload) -> (e: Event)
    ensures
        e == Event::ProfileResponse(ProfileResponse { profile }),
{
    Event::ProfileResponse(ProfileResponse { profile })
}

/// Helper: create a settings response.
pub fn settings_response(settings: SettingsPayload) -> (e: Event)
    ensures
        e == Event::SettingsResponse(SettingsResponse { settings }),
{
    Event::SettingsResponse(SettingsResponse { settings })
}

/// Helper: create a list response.
pub fn list_response(names: Vec<String>) -> (e: Event)
    ensures
        e == Event::ListResponse(ListResponse { profiles: names }),
{
    Event::ListResponse(ListResponse { profiles: names })
}

} // verus!
