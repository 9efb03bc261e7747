use modal_input::actions::Action;
use modal_input::actions::Actions;
use modal_input::actions::ConfigMap;
use modal_input::keyboard::KeyStroke;
use modal_input::mode::Dispatcher;
use modal_input::mode::Mode;
use modal_input::mode::Outcome;

#[test]
fn insert_key_switches_once() {
    let dispatcher = Dispatcher::default();
    let (outcome, mode) = dispatcher.on_keystroke(Mode::Normal, KeyStroke::Char('i'));
    assert_eq!(outcome, Outcome::Perform(Action::SwitchToInsertMode));
    assert_eq!(mode, Mode::Insert);
    let (outcome, mode) = dispatcher.on_keystroke(mode, KeyStroke::Char('i'));
    assert_eq!(outcome, Outcome::LiteralInsert('i'));
    assert_eq!(mode, Mode::Insert);
}

#[test]
fn escape_leads_back_to_normal_mode() {
    let dispatcher = Dispatcher::default();
    assert_eq!(
        dispatcher.on_keystroke(Mode::Insert, KeyStroke::KeyEscape),
        (Outcome::Perform(Action::SwitchToNormalMode), Mode::Normal)
    );
    assert_eq!(
        dispatcher.on_keystroke(Mode::Visual, KeyStroke::KeyEscape),
        (Outcome::Perform(Action::SwitchToNormalMode), Mode::Normal)
    );
    assert_eq!(
        dispatcher.on_keystroke(Mode::Normal, KeyStroke::KeyEscape),
        (Outcome::NoOp, Mode::Normal)
    );
}

#[test]
fn visual_mode_is_entered_and_left() {
    let dispatcher = Dispatcher::default();
    assert_eq!(
        dispatcher.on_keystroke(Mode::Normal, KeyStroke::Char('v')),
        (Outcome::Perform(Action::SwitchToVisualMode), Mode::Visual)
    );
    assert_eq!(
        dispatcher.on_keystroke(Mode::Visual, KeyStroke::Char('v')),
        (Outcome::NoOp, Mode::Visual)
    );
    assert_eq!(
        dispatcher.on_keystroke(Mode::Visual, KeyStroke::Char('i')),
        (Outcome::Perform(Action::SwitchToInsertMode), Mode::Insert)
    );
}

#[test]
fn bound_key_that_is_no_switch_keeps_the_mode() {
    let dispatcher = Dispatcher::default();
    for mode in [Mode::Normal, Mode::Insert, Mode::Visual] {
        assert_eq!(
            dispatcher.on_keystroke(mode, KeyStroke::KeyDown),
            (Outcome::Perform(Action::MoveDown), mode)
        );
        assert_eq!(
            dispatcher.on_keystroke(mode, KeyStroke::KeyPreviousPage),
            (Outcome::Perform(Action::PageUp), mode)
        );
    }
    assert_eq!(
        dispatcher.on_keystroke(Mode::Normal, KeyStroke::Char('q')),
        (Outcome::Perform(Action::Exit), Mode::Normal)
    );
    assert_eq!(
        dispatcher.on_keystroke(Mode::Normal, KeyStroke::Char('p')),
        (Outcome::Perform(Action::Paste), Mode::Normal)
    );
}

#[test]
fn unbound_key_is_nothing_outside_insert_mode() {
    let dispatcher = Dispatcher::default();
    for mode in [Mode::Normal, Mode::Visual] {
        assert_eq!(dispatcher.on_keystroke(mode, KeyStroke::Char('x')), (Outcome::NoOp, mode));
        assert_eq!(dispatcher.on_keystroke(mode, KeyStroke::KeyEnter), (Outcome::NoOp, mode));
        assert_eq!(dispatcher.on_keystroke(mode, KeyStroke::KeyF(5)), (Outcome::NoOp, mode));
    }
}

#[test]
fn unbound_printable_character_is_text_in_insert_mode() {
    let dispatcher = Dispatcher::default();
    for c in ['x', 'h', 'j', 'k', 'l', 'q', 'v', 'p', ' ', 'é', '\u{a0}'] {
        assert_eq!(
            dispatcher.on_keystroke(Mode::Insert, KeyStroke::Char(c)),
            (Outcome::LiteralInsert(c), Mode::Insert)
        );
    }
}

#[test]
fn unbound_key_that_is_no_text_is_nothing_in_insert_mode() {
    let dispatcher = Dispatcher::default();
    for key in [
        KeyStroke::Char('\u{1}'),
        KeyStroke::Char('\n'),
        KeyStroke::Char('\u{7f}'),
        KeyStroke::Char('\u{9f}'),
        KeyStroke::KeyEnter,
        KeyStroke::KeyTab,
        KeyStroke::KeyBackSpace,
        KeyStroke::KeyDelete,
        KeyStroke::KeyHome,
        KeyStroke::KeyF(1),
    ] {
        assert_eq!(dispatcher.on_keystroke(Mode::Insert, key), (Outcome::NoOp, Mode::Insert));
    }
}

#[test]
fn bound_character_is_no_text_in_insert_mode() {
    let insert = Actions::from_config(&ConfigMap(vec![("x".to_string(), "paste".to_string())]))
        .unwrap();
    let dispatcher = Dispatcher::new(Actions::default(), insert, Actions::new());
    assert_eq!(
        dispatcher.on_keystroke(Mode::Insert, KeyStroke::Char('x')),
        (Outcome::Perform(Action::Paste), Mode::Insert)
    );
    assert_eq!(
        dispatcher.on_keystroke(Mode::Insert, KeyStroke::Char('y')),
        (Outcome::LiteralInsert('y'), Mode::Insert)
    );
}

#[test]
fn each_mode_has_its_own_table() {
    let mut normal = Actions::new();
    normal.bind(KeyStroke::Char('a'), Action::MoveUp);
    let mut insert = Actions::new();
    insert.bind(KeyStroke::Char('a'), Action::MoveDown);
    let mut visual = Actions::new();
    visual.bind(KeyStroke::Char('a'), Action::SwitchToNormalMode);
    let dispatcher = Dispatcher::new(normal, insert, visual);
    assert_eq!(dispatcher.resolve(Mode::Normal, KeyStroke::Char('a')), Some(Action::MoveUp));
    assert_eq!(dispatcher.resolve(Mode::Insert, KeyStroke::Char('a')), Some(Action::MoveDown));
    assert_eq!(
        dispatcher.resolve(Mode::Visual, KeyStroke::Char('a')),
        Some(Action::SwitchToNormalMode)
    );
    assert_eq!(dispatcher.resolve(Mode::Normal, KeyStroke::Char('b')), None);
    assert_eq!(
        dispatcher.on_keystroke(Mode::Visual, KeyStroke::Char('a')),
        (Outcome::Perform(Action::SwitchToNormalMode), Mode::Normal)
    );
    assert_eq!(
        dispatcher.on_keystroke(Mode::Normal, KeyStroke::Char('a')),
        (Outcome::Perform(Action::MoveUp), Mode::Normal)
    );
}

#[test]
fn switch_to_the_mode_in_force_keeps_it() {
    let mut insert = Actions::new();
    insert.bind(KeyStroke::KeyF(2), Action::SwitchToInsertMode);
    let dispatcher = Dispatcher::new(Actions::new(), insert, Actions::new());
    assert_eq!(
        dispatcher.on_keystroke(Mode::Insert, KeyStroke::KeyF(2)),
        (Outcome::Perform(Action::SwitchToInsertMode), Mode::Insert)
    );
}

#[test]
fn outcome_names_its_action() {
    assert_eq!(Outcome::Perform(Action::Paste).action(), Some(Action::Paste));
    assert_eq!(Outcome::Perform(Action::Exit).action(), Some(Action::Exit));
    assert_eq!(Outcome::LiteralInsert('x').action(), None);
    assert_eq!(Outcome::NoOp.action(), None);
}
