use modal_input::actions::Action;
use modal_input::controller::Controller;
use modal_input::controller::Step;
use modal_input::keyboard::KeyStroke;
use modal_input::mode::Dispatcher;
use modal_input::mode::Mode;
use modal_input::protocol::EditCommand;
use modal_input::protocol::NewViewRequest;
use modal_input::protocol::Notification;
use modal_input::protocol::Payload;
use modal_input::protocol::Reply;
use modal_input::protocol::SessionError;
use modal_input::terminal::Input;

fn object(fields: &[(&str, Option<&str>)]) -> Reply {
    Reply::Answer(Payload::Object(
        fields.iter().map(|(name, value)| (name.to_string(), value.map(str::to_string))).collect(),
    ))
}

fn session(view_id: &str) -> Controller {
    Controller::open_file(&Reply::Answer(Payload::Text(view_id.to_string())), 24, 80).unwrap().0
}

fn edit(view_id: &str, command: EditCommand) -> Notification {
    Notification::Edit { view_id: view_id.to_string(), command }
}

#[test]
fn handshake_announces_then_asks_for_the_view() {
    let (started, request) = Controller::handshake("/home/alice/.config/xi", "notes.txt");
    assert_eq!(
        started,
        Notification::ClientStarted { config_dir: "/home/alice/.config/xi".to_string() }
    );
    assert_eq!(request, NewViewRequest { file_path: "notes.txt".to_string() });
}

#[test]
fn reply_with_identifier_opens_the_session() {
    let (controller, sent) =
        Controller::open_file(&object(&[("id", Some("view-1"))]), 24, 80).unwrap();
    assert_eq!(controller.view_id(), "view-1");
    assert_eq!(controller.height(), 24);
    assert_eq!(controller.width(), 80);
    assert_eq!(
        sent,
        vec![
            Notification::Resize { view_id: "view-1".to_string(), width: 80, height: 24 },
            Notification::Scroll { view_id: "view-1".to_string(), top: 0, bottom: 24 },
        ]
    );
}

#[test]
fn reply_without_identifier_opens_no_session() {
    let opened = Controller::open_file(&object(&[]), 24, 80);
    assert_eq!(opened.err(), Some(SessionError::ProtocolError));
    let opened = Controller::open_file(&object(&[("name", Some("view-1"))]), 24, 80);
    assert_eq!(opened.err(), Some(SessionError::ProtocolError));
    let opened = Controller::open_file(&object(&[("ID", Some("view-1"))]), 24, 80);
    assert_eq!(opened.err(), Some(SessionError::ProtocolError));
}

#[test]
fn identifier_that_is_no_text_opens_no_session() {
    let opened = Controller::open_file(&object(&[("id", None)]), 24, 80);
    assert_eq!(opened.err(), Some(SessionError::ProtocolError));
    let opened = Controller::open_file(&object(&[("id", None), ("id", Some("view-1"))]), 24, 80);
    assert_eq!(opened.err(), Some(SessionError::ProtocolError));
}

#[test]
fn identifier_is_found_among_other_fields() {
    let reply = object(&[("name", Some("a")), ("n", None), ("id", Some("view-7")), ("z", None)]);
    let (controller, _) = Controller::open_file(&reply, 10, 20).unwrap();
    assert_eq!(controller.view_id(), "view-7");
    assert_eq!(reply.view_id(), Ok("view-7".to_string()));
}

#[test]
fn reply_that_is_a_text_is_the_identifier() {
    let reply = Reply::Answer(Payload::Text("view-id-1".to_string()));
    let (controller, sent) = Controller::open_file(&reply, 50, 132).unwrap();
    assert_eq!(controller.view_id(), "view-id-1");
    assert_eq!(
        sent,
        vec![
            Notification::Resize { view_id: "view-id-1".to_string(), width: 132, height: 50 },
            Notification::Scroll { view_id: "view-id-1".to_string(), top: 0, bottom: 50 },
        ]
    );
}

#[test]
fn reply_of_another_kind_opens_no_session() {
    let opened = Controller::open_file(&Reply::Answer(Payload::Other), 24, 80);
    assert_eq!(opened.err(), Some(SessionError::ProtocolError));
}

#[test]
fn dropped_connection_opens_no_session() {
    let opened = Controller::open_file(&Reply::Dropped, 24, 80);
    assert_eq!(opened.err(), Some(SessionError::BackendUnavailable));
    assert_eq!(Reply::Dropped.view_id(), Err(SessionError::BackendUnavailable));
}

#[test]
fn empty_identifier_is_an_identifier() {
    let (controller, _) = Controller::open_file(&object(&[("id", Some(""))]), 24, 80).unwrap();
    assert_eq!(controller.view_id(), "");
}

#[test]
fn resize_keeps_the_view() {
    let mut controller = session("view-1");
    let notification = controller.resize(40, 100);
    assert_eq!(
        notification,
        Notification::Resize { view_id: "view-1".to_string(), width: 100, height: 40 }
    );
    assert_eq!(controller.view_id(), "view-1");
    assert_eq!(controller.height(), 40);
    assert_eq!(controller.width(), 100);
}

#[test]
fn edit_commands_have_their_protocol_names() {
    assert_eq!(EditCommand::MoveUp.method(), "move_up");
    assert_eq!(EditCommand::MoveDown.method(), "move_down");
    assert_eq!(EditCommand::MoveLeft.method(), "move_left");
    assert_eq!(EditCommand::MoveRight.method(), "move_right");
    assert_eq!(EditCommand::PageUp.method(), "page_up");
    assert_eq!(EditCommand::PageDown.method(), "page_down");
    assert_eq!(EditCommand::Paste.method(), "paste");
}

#[test]
fn actions_for_the_backend_are_edits() {
    assert_eq!(EditCommand::from_action(Action::MoveUp), Some(EditCommand::MoveUp));
    assert_eq!(EditCommand::from_action(Action::MoveDown), Some(EditCommand::MoveDown));
    assert_eq!(EditCommand::from_action(Action::MoveLeft), Some(EditCommand::MoveLeft));
    assert_eq!(EditCommand::from_action(Action::MoveRight), Some(EditCommand::MoveRight));
    assert_eq!(EditCommand::from_action(Action::PageUp), Some(EditCommand::PageUp));
    assert_eq!(EditCommand::from_action(Action::PageDown), Some(EditCommand::PageDown));
    assert_eq!(EditCommand::from_action(Action::Paste), Some(EditCommand::Paste));
    assert_eq!(EditCommand::from_action(Action::Exit), None);
    assert_eq!(EditCommand::from_action(Action::SwitchToInsertMode), None);
    assert_eq!(EditCommand::from_action(Action::SwitchToVisualMode), None);
    assert_eq!(EditCommand::from_action(Action::SwitchToNormalMode), None);
}

#[test]
fn end_of_input_stops_the_loop() {
    let controller = session("v");
    let dispatcher = Dispatcher::default();
    for mode in [Mode::Normal, Mode::Insert, Mode::Visual] {
        assert_eq!(controller.step(&dispatcher, mode, Input::Closed), Step::Stop);
    }
}

#[test]
fn change_of_size_asks_for_the_size() {
    let controller = session("v");
    let dispatcher = Dispatcher::default();
    for mode in [Mode::Normal, Mode::Insert, Mode::Visual] {
        assert_eq!(controller.step(&dispatcher, mode, Input::Resized), Step::Measure);
    }
}

#[test]
fn unknown_input_is_passed_over() {
    let controller = session("v");
    let dispatcher = Dispatcher::default();
    for mode in [Mode::Normal, Mode::Insert, Mode::Visual] {
        assert_eq!(
            controller.step(&dispatcher, mode, Input::Unknown),
            Step::Continue { mode, notification: None }
        );
    }
}

#[test]
fn codes_down_down_i_x() {
    let controller = session("view-1");
    let dispatcher = Dispatcher::default();
    let mut mode = Mode::Normal;
    let mut sent = Vec::new();
    for code in [ncurses::KEY_DOWN, ncurses::KEY_DOWN, 'i' as i32, 'x' as i32, ncurses::ERR] {
        match controller.step(&dispatcher, mode, Input::from_code(code)) {
            Step::Continue { mode: next, notification } => {
                sent.extend(notification);
                mode = next;
            }
            Step::Measure => panic!("no change of size was read"),
            Step::Stop => {
                assert_eq!(code, ncurses::ERR);
            }
        }
    }
    assert_eq!(mode, Mode::Insert);
    assert_eq!(
        sent,
        vec![
            edit("view-1", EditCommand::MoveDown),
            edit("view-1", EditCommand::MoveDown),
            Notification::Insert { view_id: "view-1".to_string(), chars: "x".to_string() },
        ]
    );
}

#[test]
fn exit_stops_the_loop() {
    let controller = session("v");
    let dispatcher = Dispatcher::default();
    assert_eq!(controller.step(&dispatcher, Mode::Normal, Input::Key(KeyStroke::Char('q'))), Step::Stop);
}

#[test]
fn movement_is_sent_to_the_view() {
    let controller = session("view-3");
    let dispatcher = Dispatcher::default();
    assert_eq!(
        controller.step(&dispatcher, Mode::Normal, Input::Key(KeyStroke::KeyUp)),
        Step::Continue {
            mode: Mode::Normal,
            notification: Some(edit("view-3", EditCommand::MoveUp)),
        }
    );
    assert_eq!(
        controller.step(&dispatcher, Mode::Visual, Input::Key(KeyStroke::Char('l'))),
        Step::Continue {
            mode: Mode::Visual,
            notification: Some(edit("view-3", EditCommand::MoveRight)),
        }
    );
    assert_eq!(
        controller.step(&dispatcher, Mode::Normal, Input::Key(KeyStroke::Char('p'))),
        Step::Continue { mode: Mode::Normal, notification: Some(edit("view-3", EditCommand::Paste)) }
    );
    assert_eq!(
        controller.step(&dispatcher, Mode::Insert, Input::Key(KeyStroke::KeyNextPage)),
        Step::Continue {
            mode: Mode::Insert,
            notification: Some(edit("view-3", EditCommand::PageDown)),
        }
    );
}

#[test]
fn switch_is_not_sent() {
    let controller = session("v");
    let dispatcher = Dispatcher::default();
    assert_eq!(
        controller.step(&dispatcher, Mode::Normal, Input::Key(KeyStroke::Char('i'))),
        Step::Continue { mode: Mode::Insert, notification: None }
    );
    assert_eq!(
        controller.step(&dispatcher, Mode::Insert, Input::Key(KeyStroke::KeyEscape)),
        Step::Continue { mode: Mode::Normal, notification: None }
    );
}

#[test]
fn unbound_key_is_ignored() {
    let controller = session("v");
    let dispatcher = Dispatcher::default();
    assert_eq!(
        controller.step(&dispatcher, Mode::Normal, Input::Key(KeyStroke::Char('x'))),
        Step::Continue { mode: Mode::Normal, notification: None }
    );
    assert_eq!(
        controller.step(&dispatcher, Mode::Insert, Input::Key(KeyStroke::KeyEnter)),
        Step::Continue { mode: Mode::Insert, notification: None }
    );
}

#[test]
fn text_is_inserted_in_insert_mode() {
    let controller = session("view-9");
    let dispatcher = Dispatcher::default();
    assert_eq!(
        controller.step(&dispatcher, Mode::Insert, Input::Key(KeyStroke::Char('é'))),
        Step::Continue {
            mode: Mode::Insert,
            notification: Some(Notification::Insert {
                view_id: "view-9".to_string(),
                chars: "é".to_string(),
            }),
        }
    );
}

#[test]
fn keys_down_down_i_x() {
    let controller = session("view-1");
    let dispatcher = Dispatcher::default();
    let keys =
        vec![KeyStroke::KeyDown, KeyStroke::KeyDown, KeyStroke::Char('i'), KeyStroke::Char('x')];
    let (sent, mode) = controller.start_keyboard_event_loop(&dispatcher, &keys);
    assert_eq!(
        sent,
        vec![
            edit("view-1", EditCommand::MoveDown),
            edit("view-1", EditCommand::MoveDown),
            Notification::Insert { view_id: "view-1".to_string(), chars: "x".to_string() },
        ]
    );
    assert_eq!(mode, Mode::Insert);
}

#[test]
fn loop_ends_at_the_exit() {
    let controller = session("view-1");
    let dispatcher = Dispatcher::default();
    let keys = vec![KeyStroke::KeyDown, KeyStroke::Char('q'), KeyStroke::KeyDown];
    let (sent, mode) = controller.start_keyboard_event_loop(&dispatcher, &keys);
    assert_eq!(sent, vec![edit("view-1", EditCommand::MoveDown)]);
    assert_eq!(mode, Mode::Normal);
}

#[test]
fn loop_over_no_keys_sends_nothing() {
    let controller = session("view-1");
    let dispatcher = Dispatcher::default();
    let (sent, mode) = controller.start_keyboard_event_loop(&dispatcher, &Vec::new());
    assert_eq!(sent, Vec::new());
    assert_eq!(mode, Mode::Normal);
}

#[test]
fn exit_letter_is_text_in_insert_mode() {
    let controller = session("view-1");
    let dispatcher = Dispatcher::default();
    let keys = vec![
        KeyStroke::Char('i'),
        KeyStroke::Char('q'),
        KeyStroke::KeyEscape,
        KeyStroke::Char('v'),
        KeyStroke::Char('j'),
        KeyStroke::KeyEscape,
        KeyStroke::Char('z'),
        KeyStroke::Char('q'),
        KeyStroke::Char('k'),
    ];
    let (sent, mode) = controller.start_keyboard_event_loop(&dispatcher, &keys);
    assert_eq!(
        sent,
        vec![
            Notification::Insert { view_id: "view-1".to_string(), chars: "q".to_string() },
            edit("view-1", EditCommand::MoveDown),
        ]
    );
    assert_eq!(mode, Mode::Normal);
}

#[test]
fn loop_and_steps_agree() {
    let controller = session("view-1");
    let dispatcher = Dispatcher::default();
    let keys = vec![
        KeyStroke::Char('h'),
        KeyStroke::Char('i'),
        KeyStroke::Char('h'),
        KeyStroke::KeyLeft,
        KeyStroke::KeyF(4),
        KeyStroke::KeyEscape,
        KeyStroke::KeyPreviousPage,
    ];
    let mut expected = Vec::new();
    let mut mode = Mode::Normal;
    for key in keys.iter() {
        match controller.step(&dispatcher, mode, Input::Key(*key)) {
            Step::Stop | Step::Measure => break,
            Step::Continue { mode: next, notification } => {
                expected.extend(notification);
                mode = next;
            }
        }
    }
    assert_eq!(expected.len(), 4);
    assert_eq!(controller.start_keyboard_event_loop(&dispatcher, &keys), (expected, mode));
}
