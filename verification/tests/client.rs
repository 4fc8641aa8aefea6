use rschat::client::{get_mark, ClientErr, LineKind, MessageChannel, State};
use rschat::command::{Command, Fetch, ParseCommandError};
use rschat::input::{InputController, InputMode};
use rschat::text::{starts_with, str_eq, to_decimal};

#[test]
fn commands_are_parsed_by_name() {
    assert_eq!(Command::from_str("/exit"), Ok(Command::Exit));
    assert_eq!(Command::from_str("/help"), Ok(Command::Help));
    assert_eq!(Command::from_str("/h"), Ok(Command::Help));
    assert_eq!(Command::from_str("/register"), Ok(Command::Register));
    assert_eq!(Command::from_str("/reg  \n"), Ok(Command::Register));
    assert_eq!(Command::from_str("/login"), Ok(Command::Login(None)));
    assert_eq!(Command::from_str("/login alice"), Ok(Command::Login(Some("alice".to_string()))));
    assert_eq!(Command::from_str("/get name"), Ok(Command::Get("name".to_string())));
    assert_eq!(Command::from_str("/get   two words \t"), Ok(Command::Get("two words".to_string())));
    assert_eq!(Command::from_str("/fetch list"), Ok(Command::Fetch(Fetch::UserList)));
    assert_eq!(Command::from_str("/fetch"), Ok(Command::Fetch(Fetch::Unknown)));
    assert_eq!(Command::from_str("/fetch other"), Ok(Command::Fetch(Fetch::Unknown)));
    assert_eq!(Command::from_str("/goto dev"), Ok(Command::Goto("dev".to_string())));
    assert_eq!(Command::from_str("/goto  dev  "), Ok(Command::Goto("dev".to_string())));
}

#[test]
fn lines_that_are_no_commands_say_why() {
    assert_eq!(Command::from_str(""), Err(ParseCommandError::NotCommand));
    assert_eq!(Command::from_str("hello"), Err(ParseCommandError::NotCommand));
    assert_eq!(Command::from_str(" /exit"), Err(ParseCommandError::NotCommand));
    assert_eq!(
        Command::from_str("/dance now"),
        Err(ParseCommandError::UnknownCommand("dance".to_string()))
    );
    assert_eq!(Command::from_str("/"), Err(ParseCommandError::UnknownCommand(String::new())));
    assert_eq!(Command::from_str("/ exit"), Err(ParseCommandError::UnknownCommand(String::new())));
    assert_eq!(Command::from_str("/EXIT"), Err(ParseCommandError::UnknownCommand("EXIT".to_string())));
    assert_eq!(
        Command::from_str("/get"),
        Err(ParseCommandError::InvalidArgument(
            "Command 'get' requires an argument: '[key]'".to_string()
        ))
    );
    assert_eq!(
        Command::from_str("/goto"),
        Err(ParseCommandError::InvalidArgument(
            "[#SystemError] Command 'goto' requires an argument: [channel_name]".to_string()
        ))
    );
    assert_eq!(Command::from_str("/goto "), Err(ParseCommandError::InvalidArgument(
        "[#SystemError] Command 'goto' requires an argument: [channel_name]".to_string()
    )));
}

#[test]
fn marks_follow_the_kind_of_id() {
    assert_eq!(get_mark("guest_12"), '%');
    assert_eq!(get_mark("root"), '#');
    assert_eq!(get_mark("rooter"), '#');
    assert_eq!(get_mark("alice"), '@');
    assert_eq!(get_mark("guest"), '@');
    assert_eq!(get_mark(""), '@');
}

#[test]
fn a_new_guest_is_on_public() {
    let state = State::new_guest("guest_5");
    assert_eq!(state.id, "guest_5");
    assert_eq!(state.channel, "public");
    assert!(state.is_guest);
    assert_eq!(ClientErr::JoinErr.message(), "ClientErr ouccurs!");
}

#[test]
fn message_lines_are_labelled_by_kind() {
    let mut messages = MessageChannel::default();
    messages.push("alice".to_string(), "hi".to_string());
    messages.push_sys_msg("Welcome guest_1!".to_string());
    messages.push_sys_err("Unknown command: x".to_string());
    assert_eq!(
        messages.messages,
        vec![
            ("alice".to_string(), "hi".to_string()),
            ("System".to_string(), "Welcome guest_1!".to_string()),
            ("SystemError".to_string(), "Unknown command: x".to_string()),
        ]
    );
    assert_eq!(
        messages.lines(),
        vec![
            (LineKind::Chat, "alice: hi".to_string()),
            (LineKind::System, "[System]: Welcome guest_1!".to_string()),
            (LineKind::SystemError, "[SystemError]: Unknown command: x".to_string()),
        ]
    );
}

#[test]
fn input_line_follows_the_keys() {
    let mut input = InputController::default();
    assert!(input.is_editing_mode());
    assert_eq!((input.buf.as_str(), input.cursor_pos), ("", 0));
    input.enter_char('a');
    input.enter_char('c');
    assert_eq!((input.buf.as_str(), input.cursor_pos), ("ac", 2));
    input.move_cursor_left();
    assert_eq!(input.cursor_pos, 1);
    input.enter_char('b');
    assert_eq!((input.buf.as_str(), input.cursor_pos), ("abc", 2));
    input.move_cursor_right();
    input.move_cursor_right();
    assert_eq!(input.cursor_pos, 3);
    input.delete_char();
    assert_eq!((input.buf.as_str(), input.cursor_pos), ("ab", 2));
    input.move_cursor_left();
    input.move_cursor_left();
    input.move_cursor_left();
    assert_eq!(input.cursor_pos, 0);
    input.delete_char();
    assert_eq!((input.buf.as_str(), input.cursor_pos), ("a", 0));
    assert_eq!(input.clamp_cursor(0), 0);
    assert_eq!(input.clamp_cursor(1), 1);
    assert_eq!(input.clamp_cursor(9), 1);
    input.normal_mode();
    assert!(!input.is_editing_mode());
    assert_eq!(input.input_mode, InputMode::Normal);
    input.editing_mode();
    assert!(input.is_editing_mode());
    input.enter_char('z');
    input.clear_input_box();
    assert_eq!((input.buf.as_str(), input.cursor_pos), ("", 0));
    input.delete_char();
    assert_eq!((input.buf.as_str(), input.cursor_pos), ("", 0));
    input.cursor_pos = 5;
    input.reset_cursor_pos();
    assert_eq!(input.cursor_pos, 0);
}

#[test]
fn input_line_counts_the_cursor_in_bytes() {
    let mut input = InputController::default();
    input.enter_char('é');
    assert_eq!((input.buf.as_str(), input.cursor_pos), ("é", 1));
    input.move_cursor_right();
    assert_eq!(input.cursor_pos, 2);
    input.enter_char('!');
    assert_eq!((input.buf.as_str(), input.cursor_pos), ("é!", 3));
}

#[test]
fn text_helpers_agree_with_std() {
    for n in [0u64, 1, 9, 10, 42, 99, 100, 65535, 1234567890, u64::MAX] {
        assert_eq!(to_decimal(n), n.to_string());
    }
    assert!(str_eq("", ""));
    assert!(str_eq("héllo", "héllo"));
    assert!(!str_eq("hello", "hellp"));
    assert!(!str_eq("hello", "hell"));
    assert!(starts_with("guest_1", "guest_"));
    assert!(starts_with("abc", ""));
    assert!(!starts_with("gues", "guest_"));
    assert!(!starts_with("Guest_1", "guest_"));
    assert!(starts_with("éa", "é"));
}
