use nostail::session::{
    Channel, Config, ControlInput, Event, Input, Notification, Output, Session, SessionState,
};

const QUIET: Config = Config { stats: true, content: false, show_tags: false };
const VERBOSE: Config = Config { stats: true, content: true, show_tags: false };

fn event(kind: u64, content: &str) -> Input {
    Input::Notification(Notification::Event(Event { kind, content: content.to_string() }))
}

fn key(code: char) -> Input {
    Input::Control(ControlInput::Key { code, control: false })
}

fn control_key(code: char) -> Input {
    Input::Control(ControlInput::Key { code, control: true })
}

fn stdout(line: &str) -> Option<Output> {
    Some(Output { channel: Channel::Stdout, line: line.to_string() })
}

fn stderr(line: &str) -> Option<Output> {
    Some(Output { channel: Channel::Stderr, line: line.to_string() })
}

fn counts(session: &Session) -> Vec<(u64, u64)> {
    session.stats().snapshot().iter().map(|entry| (entry.0, entry.1.seen)).collect()
}

#[test]
fn session_starts_active_and_empty() {
    let session = Session::new(QUIET);
    assert_eq!(session.state(), SessionState { paused: false, terminated: false });
    assert_eq!(session.config(), QUIET);
    assert!(counts(&session).is_empty());
}

#[test]
fn n_events_of_one_kind_count_n() {
    let mut session = Session::new(QUIET);
    for n in 1..=25u64 {
        assert_eq!(session.step(&event(1, "x")), stdout("Kind 1\r"));
        assert_eq!(session.stats().seen_count(1), n);
    }
    assert_eq!(counts(&session), vec![(1, 25)]);
}

#[test]
fn paused_events_are_not_counted() {
    let mut session = Session::new(QUIET);
    assert_eq!(session.step(&key('p')), stdout("PAUSED\r"));
    for kind in [1u64, 1, 2] {
        assert_eq!(session.step(&event(kind, "dropped")), None);
    }
    assert!(counts(&session).is_empty());
    assert_eq!(session.step(&key('p')), stdout("UNPAUSED\r"));
    assert_eq!(session.step(&event(1, "counted")), stdout("Kind 1\r"));
    assert_eq!(session.stats().seen_count(1), 1);
    assert_eq!(session.stats().seen_count(2), 0);
    assert_eq!(counts(&session), vec![(1, 1)]);
}

#[test]
fn summary_is_ascending_by_kind() {
    let mut session = Session::new(QUIET);
    for kind in [5u64, 1, 3] {
        session.step(&event(kind, ""));
    }
    session.step(&Input::Notification(Notification::Shutdown));
    assert_eq!(
        session.summary(),
        vec!["Kind 1 => seen: 1\r", "Kind 3 => seen: 1\r", "Kind 5 => seen: 1\r"]
    );
}

#[test]
fn summary_counts_each_kind() {
    let mut session = Session::new(QUIET);
    for kind in [7u64, 1, 7, 7, 0, 1] {
        session.step(&event(kind, ""));
    }
    assert_eq!(
        session.summary(),
        vec!["Kind 0 => seen: 1\r", "Kind 1 => seen: 2\r", "Kind 7 => seen: 3\r"]
    );
}

#[test]
fn no_summary_where_statistics_are_off() {
    let mut session = Session::new(Config { stats: false, content: false, show_tags: false });
    session.step(&event(1, ""));
    session.step(&Input::Notification(Notification::Stop));
    assert!(session.summary().is_empty());
    assert_eq!(session.stats().seen_count(1), 1);
}

#[test]
fn content_is_shown_sanitized_and_normalized() {
    let mut session = Session::new(VERBOSE);
    assert_eq!(session.step(&event(1, "hello")), stdout("Kind 1 => hello\r"));
    assert_eq!(
        session.step(&event(1, "a\x1b[2Jb\nc\x07")),
        stdout("Kind 1 => a\u{FFFD}[2Jb\r\nc\u{FFFD}\r")
    );
    assert_eq!(session.step(&event(4, "")), stdout("Kind 4 => \r"));
}

#[test]
fn content_is_left_out_where_it_is_off() {
    let mut session = Session::new(QUIET);
    assert_eq!(session.step(&event(1, "a\x1b[2Jb\nc")), stdout("Kind 1\r"));
}

#[test]
fn terminated_session_ignores_everything() {
    for last in [
        Input::Notification(Notification::Stop),
        Input::Notification(Notification::Shutdown),
        control_key('c'),
        Input::Control(ControlInput::Interrupt),
    ] {
        let mut session = Session::new(VERBOSE);
        session.step(&event(1, "x"));
        session.step(&last);
        assert!(session.state().terminated);
        let before = counts(&session);
        let state = session.state();
        let later = [
            event(1, "late"),
            event(9, "late"),
            key('p'),
            control_key('c'),
            Input::Control(ControlInput::Interrupt),
            Input::Control(ControlInput::Other),
            Input::Notification(Notification::ProtocolMessage),
            Input::Notification(Notification::RelayStatusChanged),
            Input::Notification(Notification::Stop),
            Input::Notification(Notification::Shutdown),
            Input::Notification(Notification::TransportError("late".to_string())),
        ];
        for input in later.iter() {
            assert_eq!(session.step(input), None);
            assert_eq!(session.state(), state);
            assert_eq!(counts(&session), before);
        }
        assert_eq!(session.summary(), vec!["Kind 1 => seen: 1\r"]);
    }
}

#[test]
fn stop_and_shutdown_terminate_with_their_own_lines() {
    let mut session = Session::new(QUIET);
    assert_eq!(session.step(&Input::Notification(Notification::Stop)), stdout("stop!\r"));
    assert_eq!(session.state(), SessionState { paused: false, terminated: true });

    let mut session = Session::new(QUIET);
    assert_eq!(session.step(&Input::Notification(Notification::Shutdown)), stderr("shutdown!\r"));
    assert_eq!(session.state(), SessionState { paused: false, terminated: true });
}

#[test]
fn termination_works_while_paused() {
    let mut session = Session::new(QUIET);
    session.step(&key('p'));
    assert_eq!(session.step(&Input::Notification(Notification::Stop)), stdout("stop!\r"));
    assert!(session.state().terminated);

    let mut session = Session::new(QUIET);
    session.step(&key('p'));
    assert_eq!(session.step(&control_key('c')), None);
    assert!(session.state().terminated);
}

#[test]
fn interruption_signal_terminates_without_a_line() {
    let mut session = Session::new(QUIET);
    session.step(&event(1, ""));
    assert_eq!(session.step(&Input::Control(ControlInput::Interrupt)), None);
    assert_eq!(session.state(), SessionState { paused: false, terminated: true });
    assert_eq!(session.summary(), vec!["Kind 1 => seen: 1\r"]);

    let mut session = Session::new(QUIET);
    session.step(&key('p'));
    assert_eq!(session.step(&Input::Control(ControlInput::Interrupt)), None);
    assert_eq!(session.state(), SessionState { paused: true, terminated: true });
}

#[test]
fn interrupt_needs_the_control_modifier() {
    let mut session = Session::new(QUIET);
    assert_eq!(session.step(&key('c')), None);
    assert_eq!(session.state(), SessionState { paused: false, terminated: false });
    assert_eq!(session.step(&control_key('c')), None);
    assert_eq!(session.state(), SessionState { paused: false, terminated: true });
}

#[test]
fn pause_key_toggles_with_any_modifier() {
    let mut session = Session::new(QUIET);
    assert_eq!(session.step(&control_key('p')), stdout("PAUSED\r"));
    assert!(session.state().paused);
    assert_eq!(session.step(&key('p')), stdout("UNPAUSED\r"));
    assert!(!session.state().paused);
}

#[test]
fn other_keys_do_nothing() {
    let mut session = Session::new(QUIET);
    for input in [key('q'), key('P'), key('C'), control_key('d'), Input::Control(ControlInput::Other)]
    {
        assert_eq!(session.step(&input), None);
        assert_eq!(session.state(), SessionState { paused: false, terminated: false });
    }
    assert!(counts(&session).is_empty());
}

#[test]
fn transport_error_is_reported_and_the_session_goes_on() {
    let mut session = Session::new(QUIET);
    let error = Input::Notification(Notification::TransportError("channel lagged by 3".to_string()));
    assert_eq!(session.step(&error), stderr("error! channel lagged by 3\r"));
    assert_eq!(session.state(), SessionState { paused: false, terminated: false });
    assert_eq!(session.step(&event(1, "")), stdout("Kind 1\r"));

    session.step(&key('p'));
    assert_eq!(session.step(&error), stderr("error! channel lagged by 3\r"));
    assert_eq!(session.state(), SessionState { paused: true, terminated: false });
}

#[test]
fn relay_status_is_logged_and_protocol_messages_are_ignored() {
    let mut session = Session::new(QUIET);
    assert_eq!(
        session.step(&Input::Notification(Notification::RelayStatusChanged)),
        stdout("relay status\r")
    );
    assert_eq!(session.step(&Input::Notification(Notification::ProtocolMessage)), None);
    assert_eq!(session.state(), SessionState { paused: false, terminated: false });
    assert!(counts(&session).is_empty());
}

#[test]
fn handlers_agree_with_step() {
    let mut by_step = Session::new(VERBOSE);
    let mut by_handler = Session::new(VERBOSE);
    let notification = Notification::Event(Event { kind: 3, content: "x\ny".to_string() });
    let out = by_handler.on_notification(&notification);
    assert_eq!(by_step.step(&Input::Notification(notification)), out);
    let control = ControlInput::Key { code: 'p', control: false };
    let out = by_handler.on_control(&control);
    assert_eq!(by_step.step(&Input::Control(control)), out);
    assert_eq!(by_step.state(), by_handler.state());
    assert_eq!(counts(&by_step), counts(&by_handler));
}

#[test]
fn show_tags_changes_nothing() {
    let mut plain = Session::new(Config { stats: true, content: true, show_tags: false });
    let mut tagged = Session::new(Config { stats: true, content: true, show_tags: true });
    let inputs = [
        event(1, "a"),
        key('p'),
        event(2, "b"),
        key('p'),
        event(2, "c\nd"),
        Input::Notification(Notification::RelayStatusChanged),
        Input::Notification(Notification::Stop),
    ];
    for input in inputs.iter() {
        assert_eq!(plain.step(input), tagged.step(input));
        assert_eq!(plain.state(), tagged.state());
    }
    assert_eq!(plain.summary(), tagged.summary());
}

#[test]
fn room_is_there_for_a_fresh_session() {
    let session = Session::new(QUIET);
    assert!(session.has_room(&event(1, "")));
    assert!(session.has_room(&key('p')));
    assert!(session.has_room(&Input::Notification(Notification::Stop)));
}

#[test]
fn only_events_that_find_the_session_active_are_counted() {
    let mut session = Session::new(QUIET);
    session.step(&event(1, ""));
    session.step(&event(2, ""));
    session.step(&key('p'));
    session.step(&event(1, ""));
    session.step(&event(3, ""));
    session.step(&key('p'));
    session.step(&event(1, ""));
    session.step(&Input::Notification(Notification::TransportError("lost".to_string())));
    session.step(&event(1, ""));
    session.step(&Input::Notification(Notification::Stop));
    session.step(&event(1, ""));
    session.step(&event(2, ""));
    assert_eq!(counts(&session), vec![(1, 3), (2, 1)]);
}

#[test]
fn summary_does_not_depend_on_the_order_of_arrival() {
    let orders: [[u64; 5]; 4] =
        [[5, 1, 3, 1, 5], [1, 1, 3, 5, 5], [5, 5, 3, 1, 1], [3, 5, 1, 5, 1]];
    for order in orders {
        let mut session = Session::new(QUIET);
        for kind in order {
            session.step(&event(kind, "x"));
        }
        assert_eq!(
            session.summary(),
            vec!["Kind 1 => seen: 2\r", "Kind 3 => seen: 1\r", "Kind 5 => seen: 2\r"]
        );
    }
}

#[test]
fn every_line_ends_with_a_carriage_return() {
    let mut session = Session::new(VERBOSE);
    let inputs = [
        event(1, "multi\nline\n"),
        Input::Notification(Notification::RelayStatusChanged),
        Input::Notification(Notification::TransportError("x".to_string())),
        key('p'),
        key('p'),
        Input::Notification(Notification::Shutdown),
    ];
    for input in inputs.iter() {
        let out = session.step(input).expect("a line");
        assert!(out.line.ends_with('\r'));
        assert!(!out.line.replace("\r\n", "").contains('\n'));
    }
}
