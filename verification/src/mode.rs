//! The editing modes and the dispatcher that picks the bindings of the mode
//! in force.

use crate::actions::default_bindings;
use crate::actions::Action;
use crate::actions::Actions;
use crate::keyboard::char_is_control;
use crate::keyboard::is_printable;
use crate::keyboard::KeyStroke;
use vstd::prelude::*;

verus! {

/// The editing mode. Exactly one is in force at any time.
#[derive(Debug, Clone, Copy, Hash, PartialEq, Eq, Structural)]
pub enum Mode {
    Normal,
    Insert,
    Visual,
}

/// What one key event comes to.
#[derive(Debug, Clone, Copy, PartialEq, Eq, Structural)]
pub enum Outcome {
    /// The key is bound, to this action.
    Perform(Action),
    /// The key is not bound and, in insert mode, stands for this character
    /// of text.
    LiteralInsert(char),
    /// The key is not bound and means nothing.
    NoOp,
}

impl Outcome {
    /// The action that the key is bound to, if it is bound.
    pub open spec fn spec_action(self) -> Option<Action> {
        match self {
            Outcome::Perform(action) => Some(action),
            _ => None,
        }
    }

    /// The action that the key is bound to, if it is bound.
    pub fn action(&self) -> (action: Option<Action>)
        ensures
            action == self.spec_action(),
    {
        match self {
            Outcome::Perform(action) => Some(*action),
            _ => None,
        }
    }
}

/// The bindings of the three modes.
pub struct Bindings {
    pub normal: Map<KeyStroke, Action>,
    pub insert: Map<KeyStroke, Action>,
    pub visual: Map<KeyStroke, Action>,
}

impl Bindings {
    /// The bindings of `mode`.
    pub open spec fn of(self, mode: Mode) -> Map<KeyStroke, Action> {
        match mode {
            Mode::Normal => self.normal,
            Mode::Insert => self.insert,
            Mode::Visual => self.visual,
        }
    }

    /// The built-in bindings of the three modes.
    pub open spec fn defaults() -> Bindings {
        Bindings {
            normal: default_bindings(Mode::Normal),
            insert: default_bindings(Mode::Insert),
            visual: default_bindings(Mode::Visual),
        }
    }
}

/// The mode after `action`: the one it switches to, or else the one in
/// force.
pub open spec fn mode_after(mode: Mode, action: Action) -> Mode {
    match action.spec_target_mode() {
        Some(target) => target,
        None => mode,
    }
}

/// What `key` comes to in `mode`, and the mode that is in force afterwards.
///
/// A bound key yields its action, and the mode changes if the action is a
/// switch. A key that is not bound never changes the mode; in insert mode a
/// printable character is then text, and everything else is nothing.
pub open spec fn dispatch(bindings: Bindings, mode: Mode, key: KeyStroke) -> (Outcome, Mode) {
    if bindings.of(mode).contains_key(key) {
        let action = bindings.of(mode)[key];
        (Outcome::Perform(action), mode_after(mode, action))
    } else {
        match (mode, key) {
            (Mode::Insert, KeyStroke::Char(c)) => if is_printable(c) {
                (Outcome::LiteralInsert(c), mode)
            } else {
                (Outcome::NoOp, mode)
            },
            _ => (Outcome::NoOp, mode),
        }
    }
}

/// Resolves key events against the table of the mode in force. It owns one
/// table for each mode.
#[derive(Debug)]
pub struct Dispatcher {
    normal: Actions,
    insert: Actions,
    visual: Actions,
}

impl View for Dispatcher {
    type V = Bindings;

    closed spec fn view(&self) -> Bindings {
        Bindings { normal: self.normal@, insert: self.insert@, visual: self.visual@ }
    }
}

impl Dispatcher {
    /// A dispatcher with the given table for each mode.
    pub fn new(normal: Actions, insert: Actions, visual: Actions) -> (dispatcher: Dispatcher)
        ensures
            dispatcher@ == (Bindings { normal: normal@, insert: insert@, visual: visual@ }),
    {
        Dispatcher { normal, insert, visual }
    }

    /// The action that `key` is bound to in `mode`, if it is bound there.
    pub fn resolve(&self, mode: Mode, key: KeyStroke) -> (action: Option<Action>)
        ensures
            action == (if self@.of(mode).contains_key(key) {
                Some(self@.of(mode)[key])
            } else {
                None
            }),
    {
        match mode {
            Mode::Normal => self.normal.get(key),
            Mode::Insert => self.insert.get(key),
            Mode::Visual => self.visual.get(key),
        }
    }

    /// Handles one key event in `current_mode`: what it comes to, and the
    /// mode in force afterwards.
    pub fn on_keystroke(&self, current_mode: Mode, key: KeyStroke) -> (result: (Outcome, Mode))
        ensures
            result == dispatch(self@, current_mode, key),
    {
        match self.resolve(current_mode, key) {
            Some(action) => {
                let next = match action.target_mode() {
                    Some(target) => target,
                    None => current_mode,
                };
                (Outcome::Perform(action), next)
            },
            None => match (current_mode, key) {
                (Mode::Insert, KeyStroke::Char(c)) => if char_is_control(c) {
                    (Outcome::NoOp, current_mode)
                } else {
                    (Outcome::LiteralInsert(c), current_mode)
                },
                _ => (Outcome::NoOp, current_mode),
            },
        }
    }
}

impl Default for Dispatcher {
    /// A dispatcher with the built-in table of each mode.
    fn default() -> (dispatcher: Dispatcher)
        ensures
            dispatcher@ == Bindings::defaults(),
    {
        Dispatcher::new(
            Actions::from_defaults(Mode::Normal),
            Actions::from_defaults(Mode::Insert),
            Actions::from_defaults(Mode::Visual),
        )
    }
}

/// The mode changes only on a key that is bound to a switch, and then to
/// the mode that the switch names.
pub proof fn lemma_mode_changes_only_on_switch(bindings: Bindings, mode: Mode, key: KeyStroke)
    requires
        dispatch(bindings, mode, key).1 != mode,
    ensures
        bindings.of(mode).contains_key(key),
        dispatch(bindings, mode, key).0 == Outcome::Perform(bindings.of(mode)[key]),
        bindings.of(mode)[key].spec_target_mode() == Some(dispatch(bindings, mode, key).1),
{
}

/// A key that is not bound in the mode in force leaves the mode as it is
/// and yields no action.
pub proof fn lemma_unbound_key_keeps_mode(bindings: Bindings, mode: Mode, key: KeyStroke)
    requires
        !bindings.of(mode).contains_key(key),
    ensures
        dispatch(bindings, mode, key).1 == mode,
        !(dispatch(bindings, mode, key).0 is Perform),
        dispatch(bindings, mode, key).0 is LiteralInsert <==> mode == Mode::Insert && key is Char
            && is_printable(key->Char_0),
{
}

/// A key that leads from normal mode into insert mode, and that insert mode
/// does not bind, switches once: pressed again in insert mode it yields no
/// action and insert mode stays in force.
pub proof fn lemma_switch_key_does_not_retrigger(bindings: Bindings, key: KeyStroke)
    requires
        bindings.of(Mode::Normal).contains_key(key),
        bindings.of(Mode::Normal)[key] == Action::SwitchToInsertMode,
        !bindings.of(Mode::Insert).contains_key(key),
    ensures
        dispatch(bindings, Mode::Normal, key) == (
            Outcome::Perform(Action::SwitchToInsertMode),
            Mode::Insert,
        ),
        dispatch(bindings, Mode::Insert, key).1 == Mode::Insert,
        !(dispatch(bindings, Mode::Insert, key).0 is Perform),
{
}

} // verus!
