use mediaplayer_control::{
    parse_command, parse_i64, service_address, Command, Failure, SERVICE_PREFIX,
};

#[test]
fn transport_names_are_plain_methods() {
    for name in ["Next", "Previous", "Pause", "PlayPause", "Stop", "Play"] {
        assert_eq!(
            parse_command(name, None),
            Ok(Command::Method(name.to_string()))
        );
    }
}

#[test]
fn unknown_name_is_forwarded_verbatim() {
    assert_eq!(
        parse_command("Quit", None),
        Ok(Command::Method("Quit".to_string()))
    );
    assert_eq!(
        parse_command("Quit", Some("7")),
        Ok(Command::Method("Quit".to_string()))
    );
}

#[test]
fn names_are_case_sensitive() {
    assert_eq!(
        parse_command("seek", Some("5")),
        Ok(Command::Method("seek".to_string()))
    );
}

#[test]
fn seek_takes_its_offset() {
    assert_eq!(
        parse_command("Seek", Some("-5000000")),
        Ok(Command::Seek(-5000000))
    );
    assert_eq!(parse_command("Seek", Some("+250")), Ok(Command::Seek(250)));
}

#[test]
fn seek_without_argument_fails() {
    assert_eq!(
        parse_command("Seek", None),
        Err(Failure::MissingArgument("Seek".to_string()))
    );
}

#[test]
fn seek_with_malformed_argument_fails() {
    assert_eq!(
        parse_command("Seek", Some("-0.5")),
        Err(Failure::MalformedArgument {
            command: "Seek".to_string(),
            argument: "-0.5".to_string()
        })
    );
}

#[test]
fn offset_volume_needs_argument() {
    assert_eq!(
        parse_command("OffsetVolume", None),
        Err(Failure::MissingArgument("OffsetVolume".to_string()))
    );
    assert_eq!(
        parse_command("OffsetVolume", Some("-0.025")),
        Ok(Command::OffsetVolume)
    );
}

#[test]
fn position_needs_no_argument() {
    assert_eq!(
        parse_command("GetFormattedPosition", None),
        Ok(Command::GetFormattedPosition)
    );
}

#[test]
fn integer_text_is_read() {
    assert_eq!(parse_i64("0"), Some(0));
    assert_eq!(parse_i64("007"), Some(7));
    assert_eq!(parse_i64("-5000000"), Some(-5000000));
    assert_eq!(parse_i64("+42"), Some(42));
    assert_eq!(parse_i64("9223372036854775807"), Some(i64::MAX));
    assert_eq!(parse_i64("-9223372036854775808"), Some(i64::MIN));
}

#[test]
fn integer_text_is_refused() {
    assert_eq!(parse_i64(""), None);
    assert_eq!(parse_i64("-"), None);
    assert_eq!(parse_i64("+"), None);
    assert_eq!(parse_i64("12a"), None);
    assert_eq!(parse_i64(" 1"), None);
    assert_eq!(parse_i64("--1"), None);
    assert_eq!(parse_i64("9223372036854775808"), None);
    assert_eq!(parse_i64("-9223372036854775809"), None);
    assert_eq!(parse_i64("123456789012345678901234567890"), None);
}

#[test]
fn integer_text_agrees_with_std() {
    for t in ["1", "-1", "+0", "-0", "99999", "x", "", "1 ", "18446744073709551615"] {
        assert_eq!(parse_i64(t), t.parse::<i64>().ok());
    }
}

#[test]
fn service_address_prefixes_player() {
    assert_eq!(service_address("audacious"), "org.mpris.MediaPlayer2.audacious");
    assert_eq!(service_address(""), SERVICE_PREFIX);
}

#[test]
fn failure_messages() {
    assert_eq!(
        Failure::MissingArgument("Seek".to_string()).message(),
        "No argument for Seek command"
    );
    assert_eq!(
        Failure::MalformedArgument { command: "Seek".to_string(), argument: "abc".to_string() }
            .message(),
        "Invalid argument for Seek command: \"abc\" is not a signed 64-bit integer"
    );
    assert_eq!(
        Failure::NegativePosition(-1).message(),
        "Wrong returned value for position: -1"
    );
    assert_eq!(
        Failure::NegativePosition(i64::MIN).message(),
        "Wrong returned value for position: -9223372036854775808"
    );
    assert_eq!(Failure::Remote("no such service".to_string()).message(), "no such service");
}
