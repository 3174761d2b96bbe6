use nanod::protocol::command::{Command, MotorCommand, ProfilePayload, SettingsPayload};
use nanod::protocol::parse::{route_command, CommandDocument, FieldDecode, JsonCommand, LoadArgument, ParseError};
use nanod::protocol::serialize::{angle_event, frame_line, key_event, list_response, message_event};

fn empty_doc() -> CommandDocument {
    CommandDocument {
        profile: FieldDecode::Absent,
        settings: FieldDecode::Absent,
        motor: FieldDecode::Absent,
        screen: FieldDecode::Absent,
        save: false,
        load: None,
        list: false,
        get: false,
        get_settings: false,
    }
}

#[test]
fn route_simple_flags() {
    assert_eq!(route_command(JsonCommand::Object(CommandDocument { get: true, ..empty_doc() })), Ok(Command::Get));
    assert_eq!(route_command(JsonCommand::Object(CommandDocument { list: true, ..empty_doc() })), Ok(Command::List));
    assert_eq!(route_command(JsonCommand::Object(CommandDocument { save: true, ..empty_doc() })), Ok(Command::Save));
    assert_eq!(
        route_command(JsonCommand::Object(CommandDocument { get_settings: true, ..empty_doc() })),
        Ok(Command::GetSettings)
    );
    assert_eq!(route_command(JsonCommand::Object(empty_doc())), Err(ParseError::UnknownCommand));
}

#[test]
fn route_load_forms() {
    let doc = CommandDocument { load: Some(LoadArgument::Text("a".to_string())), ..empty_doc() };
    assert_eq!(route_command(JsonCommand::Object(doc)), Ok(Command::Load("a".to_string())));
    let doc = CommandDocument { load: Some(LoadArgument::Object { name: Some("b".to_string()) }), ..empty_doc() };
    assert_eq!(route_command(JsonCommand::Object(doc)), Ok(Command::Load("b".to_string())));
    let doc = CommandDocument { load: Some(LoadArgument::Object { name: None }), ..empty_doc() };
    assert_eq!(
        route_command(JsonCommand::Object(doc)),
        Err(ParseError::InvalidField("load requires a name".to_string()))
    );
}

#[test]
fn route_priority_and_errors() {
    let doc = CommandDocument {
        motor: FieldDecode::Decoded(MotorCommand { recalibrate: true }),
        get: true,
        ..empty_doc()
    };
    assert_eq!(route_command(JsonCommand::Object(doc)), Ok(Command::Motor(MotorCommand { recalibrate: true })));
    let doc = CommandDocument {
        profile: FieldDecode::Decoded(ProfilePayload { name: "x".to_string(), haptic: None, led: None }),
        settings: FieldDecode::Invalid("bad".to_string()),
        ..empty_doc()
    };
    assert!(matches!(route_command(JsonCommand::Object(doc)), Ok(Command::SetProfile(_))));
    let doc = CommandDocument { settings: FieldDecode::<SettingsPayload>::Invalid("bad".to_string()), ..empty_doc() };
    assert_eq!(route_command(JsonCommand::Object(doc)), Err(ParseError::InvalidField("bad".to_string())));
    assert_eq!(
        route_command(JsonCommand::Malformed("eof".to_string())),
        Err(ParseError::InvalidJson("eof".to_string()))
    );
    assert_eq!(
        route_command(JsonCommand::NotObject),
        Err(ParseError::InvalidFormat("expected JSON object".to_string()))
    );
    assert_eq!(ParseError::UnknownCommand.message(), "unknown command");
    assert_eq!(ParseError::InvalidJson("x".to_string()).message(), "invalid JSON: x");
}

#[test]
fn event_helpers() {
    assert_eq!(frame_line("{}".to_string()), "{}\n");
    match angle_event(5) {
        nanod::protocol::command::Event::Angle(a) => assert_eq!(a.angle.cur_pos, 5),
        _ => panic!("expected an angle event"),
    }
    match key_event(2, "pressed") {
        nanod::protocol::command::Event::Key(k) => assert_eq!((k.key.num, k.key.state.as_str()), (2, "pressed")),
        _ => panic!("expected a key event"),
    }
    match message_event("info", "hi") {
        nanod::protocol::command::Event::Message(m) => assert_eq!((m.msg.msg_type.as_str(), m.msg.text.as_str()), ("info", "hi")),
        _ => panic!("expected a message"),
    }
    match list_response(vec!["a".to_string()]) {
        nanod::protocol::command::Event::ListResponse(l) => assert_eq!(l.profiles, vec!["a"]),
        _ => panic!("expected a list"),
    }
}
