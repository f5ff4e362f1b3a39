use mediaplayer_control::{
    format_position, parse_command, Action, Command, Dispatch, Event, Failure, Property, Stage,
    METHOD_TIMEOUT_MS, PROPERTY_TIMEOUT_MS,
};

fn run_all_ok(command: Command) -> Vec<Action> {
    let mut d = Dispatch::new(command);
    let mut actions = vec![d.step(Event::Begin)];
    while d.stage != Stage::Over {
        actions.push(d.step(Event::Replied));
    }
    actions
}

#[test]
fn transport_command_is_one_call_without_output() {
    for name in ["Next", "Previous", "Pause", "PlayPause", "Stop", "Play"] {
        let command = parse_command(name, None).unwrap();
        assert_eq!(
            run_all_ok(command),
            vec![
                Action::Invoke { method: name.to_string(), argument: None },
                Action::Finish
            ]
        );
    }
}

#[test]
fn unknown_command_is_one_call() {
    let command = parse_command("Quit", None).unwrap();
    assert_eq!(
        run_all_ok(command),
        vec![
            Action::Invoke { method: "Quit".to_string(), argument: None },
            Action::Finish
        ]
    );
}

#[test]
fn seek_is_one_call_with_offset() {
    let command = parse_command("Seek", Some("-5000000")).unwrap();
    assert_eq!(
        run_all_ok(command),
        vec![
            Action::Invoke { method: "Seek".to_string(), argument: Some(-5000000) },
            Action::Finish
        ]
    );
}

#[test]
fn offset_volume_reads_then_writes() {
    let command = parse_command("OffsetVolume", Some("-0.025")).unwrap();
    assert_eq!(
        run_all_ok(command),
        vec![Action::Read(Property::Volume), Action::WriteVolume, Action::Finish]
    );
    assert_eq!(Property::Volume.name(), "Volume");
    assert_eq!(Property::Position.name(), "Position");
}

#[test]
fn position_is_printed() {
    let mut d = Dispatch::new(Command::GetFormattedPosition);
    assert_eq!(d.step(Event::Begin), Action::Read(Property::Position));
    assert_eq!(
        d.step(Event::PositionRead(75_500_000)),
        Action::Print("01:15.50".to_string())
    );
    assert_eq!(d.stage, Stage::Over);
}

#[test]
fn negative_position_aborts() {
    let mut d = Dispatch::new(Command::GetFormattedPosition);
    d.step(Event::Begin);
    assert_eq!(
        d.step(Event::PositionRead(-1)),
        Action::Abort(Failure::NegativePosition(-1))
    );
    assert_eq!(d.stage, Stage::Over);
}

#[test]
fn failed_call_aborts_with_bus_message() {
    let mut d = Dispatch::new(Command::OffsetVolume);
    d.step(Event::Begin);
    assert_eq!(d.step(Event::Replied), Action::WriteVolume);
    assert_eq!(
        d.step(Event::CallFailed("timeout".to_string())),
        Action::Abort(Failure::Remote("timeout".to_string()))
    );
    assert_eq!(d.stage, Stage::Over);
}

#[test]
fn events_out_of_turn_abort() {
    let mut d = Dispatch::new(Command::Method("Next".to_string()));
    assert_eq!(d.step(Event::Replied), Action::Abort(Failure::UnexpectedEvent));
    let mut d = Dispatch::new(Command::Method("Next".to_string()));
    d.step(Event::Begin);
    assert_eq!(d.step(Event::PositionRead(5)), Action::Abort(Failure::UnexpectedEvent));
    assert_eq!(d.step(Event::Replied), Action::Abort(Failure::UnexpectedEvent));
}

#[test]
fn timeouts() {
    let call = Action::Invoke { method: "Next".to_string(), argument: None };
    assert_eq!(call.timeout_ms(), Some(METHOD_TIMEOUT_MS));
    assert_eq!(METHOD_TIMEOUT_MS, 100);
    assert_eq!(Action::Read(Property::Volume).timeout_ms(), Some(PROPERTY_TIMEOUT_MS));
    assert_eq!(Action::WriteVolume.timeout_ms(), Some(5000));
    assert_eq!(Action::Finish.timeout_ms(), None);
}

#[test]
fn position_text_examples() {
    assert_eq!(format_position(75_500_000), "01:15.50");
    assert_eq!(format_position(0), "00:00.00");
    assert_eq!(format_position(9_990_000), "00:09.99");
    assert_eq!(format_position(59_996_000), "00:60.00");
    assert_eq!(format_position(754_321_000), "12:34.32");
    assert_eq!(format_position(3_599_990_000), "59:59.99");
}

#[test]
fn position_minutes_wrap_at_the_hour() {
    // The hour is dropped from the minutes and not carried into the seconds.
    assert_eq!(format_position(3_600_000_000), "00:00.00");
    assert_eq!(format_position(3_675_500_000), "01:15.50");
    assert_eq!(format_position(7_384_120_000), "03:04.12");
}

#[test]
fn position_hundredths_follow_the_double() {
    // 0.015 and 75.505 as doubles lie just below the written values.
    assert_eq!(format_position(15_000), "00:00.01");
    assert_eq!(format_position(75_505_000), "01:15.50");
    // 0.125 is a double exactly: the half goes to the even hundredth.
    assert_eq!(format_position(125_000), "00:00.12");
    assert_eq!(format_position(375_000), "00:00.38");
}

fn float_text(us: u64) -> String {
    let total = us as f64 / 1_000_000.0;
    let minutes = (total / 60.0).floor();
    let seconds = total - 60.0 * minutes;
    format!("{:02}:{:05.2}", (minutes as i64) % 60, seconds)
}

#[test]
fn position_text_matches_float_formatting() {
    let mut us: u64 = 0;
    while us <= 200_000_000 {
        assert_eq!(format_position(us), float_text(us), "at {} us", us);
        us += 5_000;
    }
    for us in [
        1u64,
        15_000,
        75_505_000,
        123_456_789,
        3_599_990_000,
        3_600_000_000,
        7_384_125_000,
        86_399_995_000,
        9_007_199_254_740_993,
        i64::MAX as u64,
    ] {
        assert_eq!(format_position(us), float_text(us), "at {} us", us);
    }
}
