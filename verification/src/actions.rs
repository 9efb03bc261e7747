//! Actions, and the tables that bind keys to them.

use crate::keyboard::lemma_description_names_one_key;
use crate::keyboard::spec_parse_description;
use crate::keyboard::same_text;
use crate::keyboard::KeyStroke;
use crate::mode::Mode;
use std::collections::HashMap;
use vstd::prelude::*;

verus! {

broadcast use vstd::std_specs::hash::group_hash_axioms;

/// What a key can ask of the editor.
#[derive(Debug, Copy, Clone, Hash, Eq, PartialEq, Structural)]
pub enum Action {
    SwitchToInsertMode,
    SwitchToVisualMode,
    SwitchToNormalMode,
    Exit,
    MoveUp,
    MoveDown,
    MoveLeft,
    MoveRight,
    PageUp,
    PageDown,
    Paste,
}

/// The action that a configuration names by `name`, if it names one.
pub open spec fn spec_action_from_name(name: Seq<char>) -> Option<Action> {
    if name == "switch_to_insert_mode"@ {
        Some(Action::SwitchToInsertMode)
    } else if name == "move_up"@ {
        Some(Action::MoveUp)
    } else if name == "move_down"@ {
        Some(Action::MoveDown)
    } else if name == "move_left"@ {
        Some(Action::MoveLeft)
    } else if name == "move_right"@ {
        Some(Action::MoveRight)
    } else if name == "exit"@ {
        Some(Action::Exit)
    } else if name == "page_up"@ {
        Some(Action::PageUp)
    } else if name == "page_down"@ {
        Some(Action::PageDown)
    } else if name == "paste"@ {
        Some(Action::Paste)
    } else {
        None
    }
}

impl Action {
    /// The mode that this action switches to, if it switches modes.
    pub open spec fn spec_target_mode(self) -> Option<Mode> {
        match self {
            Action::SwitchToInsertMode => Some(Mode::Insert),
            Action::SwitchToVisualMode => Some(Mode::Visual),
            Action::SwitchToNormalMode => Some(Mode::Normal),
            _ => None,
        }
    }

    /// The mode that this action switches to, if it switches modes.
    pub fn target_mode(&self) -> (target: Option<Mode>)
        ensures
            target == self.spec_target_mode(),
    {
        match self {
            Action::SwitchToInsertMode => Some(Mode::Insert),
            Action::SwitchToVisualMode => Some(Mode::Visual),
            Action::SwitchToNormalMode => Some(Mode::Normal),
            _ => None,
        }
    }

    /// Reads an action's name as configuration writes it.
    pub fn from_name(name: &str) -> (action: Option<Action>)
        ensures
            action == spec_action_from_name(name@),
    {
        if same_text(name, "switch_to_insert_mode") {
            Some(Action::SwitchToInsertMode)
        } else if same_text(name, "move_up") {
            Some(Action::MoveUp)
        } else if same_text(name, "move_down") {
            Some(Action::MoveDown)
        } else if same_text(name, "move_left") {
            Some(Action::MoveLeft)
        } else if same_text(name, "move_right") {
            Some(Action::MoveRight)
        } else if same_text(name, "exit") {
            Some(Action::Exit)
        } else if same_text(name, "page_up") {
            Some(Action::PageUp)
        } else if same_text(name, "page_down") {
            Some(Action::PageDown)
        } else if same_text(name, "paste") {
            Some(Action::Paste)
        } else {
            None
        }
    }
}

/// A configuration of bindings: entries of a key description and an
/// action name, in the order in which they are to be applied.
#[derive(Debug, PartialEq, Eq)]
pub struct ConfigMap(pub Vec<(String, String)>);

impl View for ConfigMap {
    type V = Seq<(Seq<char>, Seq<char>)>;

    open spec fn view(&self) -> Seq<(Seq<char>, Seq<char>)> {
        Seq::new(self.0@.len(), |i: int| (self.0@[i].0@, self.0@[i].1@))
    }
}

/// Why an entry of a configuration binds nothing. Each variant holds the
/// text that was not understood.
#[derive(Debug, PartialEq, Eq)]
pub enum ConfigError {
    /// The key description names no key.
    UnknownKey(String),
    /// The action name names no action.
    UnknownAction(String),
}

/// A `ConfigError` with its text as a sequence of characters.
pub enum ConfigErrorView {
    UnknownKey(Seq<char>),
    UnknownAction(Seq<char>),
}

impl View for ConfigError {
    type V = ConfigErrorView;

    open spec fn view(&self) -> ConfigErrorView {
        match self {
            ConfigError::UnknownKey(text) => ConfigErrorView::UnknownKey(text@),
            ConfigError::UnknownAction(text) => ConfigErrorView::UnknownAction(text@),
        }
    }
}

/// The binding that one entry of a configuration asks for. The key is read
/// first: an entry that is wrong in both parts fails on its key.
pub open spec fn spec_parse_binding(key_desc: Seq<char>, action_name: Seq<char>) -> Result<
    (KeyStroke, Action),
    ConfigErrorView,
> {
    match spec_parse_description(key_desc) {
        None => Err(ConfigErrorView::UnknownKey(key_desc)),
        Some(key) => match spec_action_from_name(action_name) {
            None => Err(ConfigErrorView::UnknownAction(action_name)),
            Some(action) => Ok((key, action)),
        },
    }
}

/// The bindings that a configuration asks for: its entries applied in
/// order, each replacing what an earlier one bound to the same key. One
/// entry that binds nothing fails the whole configuration, with the error
/// of the first such entry.
pub open spec fn spec_from_config(entries: Seq<(Seq<char>, Seq<char>)>) -> Result<
    Map<KeyStroke, Action>,
    ConfigErrorView,
>
    decreases entries.len(),
{
    if entries.len() == 0 {
        Ok(Map::empty())
    } else {
        match spec_from_config(entries.drop_last()) {
            Err(error) => Err(error),
            Ok(bindings) => match spec_parse_binding(entries.last().0, entries.last().1) {
                Err(error) => Err(error),
                Ok((key, action)) => Ok(bindings.insert(key, action)),
            },
        }
    }
}

/// Whether an entry of a configuration can be read.
pub open spec fn entry_is_valid(entry: (Seq<char>, Seq<char>)) -> bool {
    spec_parse_binding(entry.0, entry.1) is Ok
}

/// Whether an entry of a configuration binds `key` to `action`.
pub open spec fn entry_binds(entry: (Seq<char>, Seq<char>), key: KeyStroke, action: Action) -> bool {
    spec_parse_binding(entry.0, entry.1) == Ok::<(KeyStroke, Action), ConfigErrorView>(
        (key, action),
    )
}

/// Whether an entry of a configuration binds `key` to some action.
pub open spec fn entry_binds_key(entry: (Seq<char>, Seq<char>), key: KeyStroke) -> bool {
    exists|action: Action| entry_binds(entry, key, action)
}

/// Whether a configuration is a mapping: no two of its entries have the
/// same key description.
pub open spec fn is_mapping(entries: Seq<(Seq<char>, Seq<char>)>) -> bool {
    forall|i: int, j: int|
        0 <= i < j < entries.len() ==> (#[trigger] entries[i]).0 != (#[trigger] entries[j]).0
}

/// The arrow and paging keys, which every mode binds.
pub open spec fn navigation_bindings() -> Map<KeyStroke, Action> {
    map![
        KeyStroke::KeyUp => Action::MoveUp,
        KeyStroke::KeyDown => Action::MoveDown,
        KeyStroke::KeyLeft => Action::MoveLeft,
        KeyStroke::KeyRight => Action::MoveRight,
        KeyStroke::KeyPreviousPage => Action::PageUp,
        KeyStroke::KeyNextPage => Action::PageDown,
    ]
}

/// The primary bindings of a mode: navigation and the mode's own keys.
pub open spec fn primary_bindings(mode: Mode) -> Map<KeyStroke, Action> {
    match mode {
        Mode::Normal => navigation_bindings().insert(
            KeyStroke::Char('i'),
            Action::SwitchToInsertMode,
        ).insert(KeyStroke::Char('v'), Action::SwitchToVisualMode).insert(
            KeyStroke::Char('q'),
            Action::Exit,
        ).insert(KeyStroke::Char('p'), Action::Paste),
        Mode::Insert => navigation_bindings().insert(
            KeyStroke::KeyEscape,
            Action::SwitchToNormalMode,
        ),
        Mode::Visual => navigation_bindings().insert(
            KeyStroke::KeyEscape,
            Action::SwitchToNormalMode,
        ).insert(KeyStroke::Char('i'), Action::SwitchToInsertMode),
    }
}

/// The secondary bindings of a mode: the letters that move the cursor as
/// the arrow keys do, where letters are not text.
pub open spec fn overlay_bindings(mode: Mode) -> Map<KeyStroke, Action> {
    match mode {
        Mode::Insert => Map::empty(),
        _ => map![
            KeyStroke::Char('k') => Action::MoveUp,
            KeyStroke::Char('j') => Action::MoveDown,
            KeyStroke::Char('h') => Action::MoveLeft,
            KeyStroke::Char('l') => Action::MoveRight,
        ],
    }
}

/// The built-in bindings of a mode: its primary bindings, and under them
/// its secondary ones.
pub open spec fn default_bindings(mode: Mode) -> Map<KeyStroke, Action> {
    overlay_bindings(mode).union_prefer_right(primary_bindings(mode))
}

/// A table of bindings: each key is bound to at most one action.
#[derive(Debug)]
pub struct Actions(HashMap<u64, Action>);

impl View for Actions {
    type V = Map<KeyStroke, Action>;

    /// The bindings, as a map from the bound keys to their actions.
    closed spec fn view(&self) -> Map<KeyStroke, Action> {
        Map::new(
            |key: KeyStroke| self.0@.contains_key(key.spec_code()),
            |key: KeyStroke| self.0@[key.spec_code()],
        )
    }
}

impl Actions {
    /// A table that binds no key.
    pub fn new() -> (table: Actions)
        ensures
            table@ == Map::<KeyStroke, Action>::empty(),
    {
        let table = Actions(HashMap::new());
        assert(table@ =~= Map::<KeyStroke, Action>::empty());
        table
    }

    /// Binds `key` to `action`. An earlier binding of `key` is replaced,
    /// every other binding stays.
    pub fn bind(&mut self, key: KeyStroke, action: Action)
        ensures
            final(self)@ == old(self)@.insert(key, action),
    {
        self.0.insert(key.code(), action);
        proof {
            assert forall|other: KeyStroke| other.spec_code() == key.spec_code() implies other
                == key by {
                KeyStroke::lemma_code_injective(other, key);
            }
            assert(self@ =~= old(self)@.insert(key, action));
        }
    }

    /// The built-in table of `mode`.
    pub fn from_defaults(mode: Mode) -> (table: Actions)
        ensures
            table@ == default_bindings(mode),
    {
        let mut table = Actions::new();
        match mode {
            Mode::Insert => {},
            _ => {
                table.bind(KeyStroke::Char('k'), Action::MoveUp);
                table.bind(KeyStroke::Char('j'), Action::MoveDown);
                table.bind(KeyStroke::Char('h'), Action::MoveLeft);
                table.bind(KeyStroke::Char('l'), Action::MoveRight);
            },
        }
        table.bind(KeyStroke::KeyUp, Action::MoveUp);
        table.bind(KeyStroke::KeyDown, Action::MoveDown);
        table.bind(KeyStroke::KeyLeft, Action::MoveLeft);
        table.bind(KeyStroke::KeyRight, Action::MoveRight);
        table.bind(KeyStroke::KeyPreviousPage, Action::PageUp);
        table.bind(KeyStroke::KeyNextPage, Action::PageDown);
        match mode {
            Mode::Normal => {
                table.bind(KeyStroke::Char('i'), Action::SwitchToInsertMode);
                table.bind(KeyStroke::Char('v'), Action::SwitchToVisualMode);
                table.bind(KeyStroke::Char('q'), Action::Exit);
                table.bind(KeyStroke::Char('p'), Action::Paste);
            },
            Mode::Insert => {
                table.bind(KeyStroke::KeyEscape, Action::SwitchToNormalMode);
            },
            Mode::Visual => {
                table.bind(KeyStroke::KeyEscape, Action::SwitchToNormalMode);
                table.bind(KeyStroke::Char('i'), Action::SwitchToInsertMode);
            },
        }
        assert(table@ =~= default_bindings(mode));
        table
    }

    /// Reads one entry of a configuration.
    pub fn parse_binding(key_desc: &str, action_name: &str) -> (binding: Result<
        (KeyStroke, Action),
        ConfigError,
    >)
        ensures
            match binding {
                Ok(pair) => spec_parse_binding(key_desc@, action_name@) == Ok::<
                    (KeyStroke, Action),
                    ConfigErrorView,
                >(pair),
                Err(error) => spec_parse_binding(key_desc@, action_name@) == Err::<
                    (KeyStroke, Action),
                    ConfigErrorView,
                >(error@),
            },
    {
        match KeyStroke::parse_description(key_desc) {
            Err(_) => Err(ConfigError::UnknownKey(key_desc.to_owned())),
            Ok(key) => match Action::from_name(action_name) {
                None => Err(ConfigError::UnknownAction(action_name.to_owned())),
                Some(action) => Ok((key, action)),
            },
        }
    }

    /// Builds a table from a configuration. The entries are applied in
    /// order, so of two entries for one key the later one holds. The first
    /// entry that cannot be read fails the whole configuration: no table is
    /// built from the rest.
    pub fn from_config(config_map: &ConfigMap) -> (loaded: Result<Actions, ConfigError>)
        ensures
            match loaded {
                Ok(table) => spec_from_config(config_map@) == Ok::<
                    Map<KeyStroke, Action>,
                    ConfigErrorView,
                >(table@),
                Err(error) => spec_from_config(config_map@) == Err::<
                    Map<KeyStroke, Action>,
                    ConfigErrorView,
                >(error@),
            },
    {
        let mut table = Actions::new();
        let mut i: usize = 0;
        while i < config_map.0.len()
            invariant
                i <= config_map.0.len(),
                spec_from_config(config_map@.take(i as int)) == Ok::<
                    Map<KeyStroke, Action>,
                    ConfigErrorView,
                >(table@),
            decreases config_map.0.len() - i,
        {
            let entry = &config_map.0[i];
            proof {
                assert(config_map@.take(i + 1).drop_last() =~= config_map@.take(i as int));
                assert(config_map@.take(i + 1).last() == config_map@[i as int]);
            }
            match Actions::parse_binding(entry.0.as_str(), entry.1.as_str()) {
                Err(error) => {
                    proof {
                        lemma_from_config_fails_on(config_map@, i as int + 1);
                    }
                    return Err(error);
                },
                Ok((key, action)) => {
                    table.bind(key, action);
                },
            }
            i += 1;
        }
        assert(config_map@.take(i as int) =~= config_map@);
        Ok(table)
    }

    /// The action that `key` is bound to. A key that the table does not bind
    /// has none: that is no error.
    pub fn get(&self, key: KeyStroke) -> (action: Option<Action>)
        ensures
            action == (if self@.contains_key(key) {
                Some(self@[key])
            } else {
                None
            }),
    {
        let code: u64 = key.code();
        match self.0.get(&code) {
            Some(action) => Some(*action),
            None => None,
        }
    }
}

impl Default for Actions {
    /// The built-in table of normal mode.
    fn default() -> (table: Actions)
        ensures
            table@ == default_bindings(Mode::Normal),
    {
        Actions::from_defaults(Mode::Normal)
    }
}

/// In a built-in table every primary binding holds: the secondary bindings
/// never take the place of one.
pub proof fn lemma_defaults_keep_primary(mode: Mode, key: KeyStroke)
    requires
        primary_bindings(mode).contains_key(key),
    ensures
        default_bindings(mode).contains_key(key),
        default_bindings(mode)[key] == primary_bindings(mode)[key],
{
}

/// In the built-in tables of normal and visual mode the letters h, j, k and
/// l are bound as the arrow keys left, down, up and right are, and the
/// arrow keys are bound to the four movements.
pub proof fn lemma_defaults_letters_follow_arrows(mode: Mode)
    requires
        mode != Mode::Insert,
    ensures
        default_bindings(mode).contains_key(KeyStroke::Char('h')),
        default_bindings(mode).contains_key(KeyStroke::Char('j')),
        default_bindings(mode).contains_key(KeyStroke::Char('k')),
        default_bindings(mode).contains_key(KeyStroke::Char('l')),
        default_bindings(mode)[KeyStroke::Char('h')] == default_bindings(mode)[KeyStroke::KeyLeft],
        default_bindings(mode)[KeyStroke::Char('j')] == default_bindings(mode)[KeyStroke::KeyDown],
        default_bindings(mode)[KeyStroke::Char('k')] == default_bindings(mode)[KeyStroke::KeyUp],
        default_bindings(mode)[KeyStroke::Char('l')] == default_bindings(mode)[KeyStroke::KeyRight],
        default_bindings(mode)[KeyStroke::KeyLeft] == Action::MoveLeft,
        default_bindings(mode)[KeyStroke::KeyDown] == Action::MoveDown,
        default_bindings(mode)[KeyStroke::KeyUp] == Action::MoveUp,
        default_bindings(mode)[KeyStroke::KeyRight] == Action::MoveRight,
{
}

/// A configuration fails as soon as one of its beginnings fails, and with
/// the same error.
pub proof fn lemma_from_config_fails_on(entries: Seq<(Seq<char>, Seq<char>)>, n: int)
    requires
        0 <= n <= entries.len(),
        spec_from_config(entries.take(n)) is Err,
    ensures
        spec_from_config(entries) == spec_from_config(entries.take(n)),
    decreases entries.len() - n,
{
    if n < entries.len() {
        assert(entries.take(n + 1).drop_last() =~= entries.take(n));
        lemma_from_config_fails_on(entries, n + 1);
    } else {
        assert(entries.take(n) =~= entries);
    }
}

/// A configuration yields a table exactly when every one of its entries can
/// be read.
pub proof fn lemma_from_config_succeeds_iff_all_valid(entries: Seq<(Seq<char>, Seq<char>)>)
    ensures
        spec_from_config(entries) is Ok <==> forall|i: int|
            0 <= i < entries.len() ==> entry_is_valid(#[trigger] entries[i]),
    decreases entries.len(),
{
    if entries.len() > 0 {
        let front = entries.drop_last();
        lemma_from_config_succeeds_iff_all_valid(front);
        assert forall|i: int| 0 <= i < front.len() implies front[i] == entries[i] by {}
        if spec_from_config(entries) is Ok {
            assert forall|i: int| 0 <= i < entries.len() implies entry_is_valid(
                #[trigger] entries[i],
            ) by {
                if i < front.len() {
                    assert(entry_is_valid(front[i]));
                }
            }
        }
        if forall|i: int| 0 <= i < entries.len() ==> entry_is_valid(#[trigger] entries[i]) {
            assert forall|i: int| 0 <= i < front.len() implies entry_is_valid(
                #[trigger] front[i],
            ) by {
                assert(entry_is_valid(entries[i]));
            }
            assert(entry_is_valid(entries[entries.len() - 1]));
        }
    }
}

/// A configuration that fails does so with the error of its first entry
/// that cannot be read.
pub proof fn lemma_from_config_fails_with_first_error(entries: Seq<(Seq<char>, Seq<char>)>) -> (at:
    int)
    requires
        spec_from_config(entries) is Err,
    ensures
        0 <= at < entries.len(),
        forall|i: int| 0 <= i < at ==> entry_is_valid(#[trigger] entries[i]),
        spec_from_config(entries) == Err::<Map<KeyStroke, Action>, ConfigErrorView>(
            spec_parse_binding(entries[at].0, entries[at].1)->Err_0,
        ),
        !entry_is_valid(entries[at]),
    decreases entries.len(),
{
    let front = entries.drop_last();
    if spec_from_config(front) is Err {
        let at = lemma_from_config_fails_with_first_error(front);
        assert forall|i: int| 0 <= i < at implies entry_is_valid(#[trigger] entries[i]) by {
            assert(entry_is_valid(front[i]));
        }
        at
    } else {
        lemma_from_config_succeeds_iff_all_valid(front);
        assert forall|i: int| 0 <= i < front.len() implies entry_is_valid(
            #[trigger] entries[i],
        ) by {
            assert(entry_is_valid(front[i]));
        }
        entries.len() - 1
    }
}

/// Last write wins: in the table that a configuration yields, a key has the
/// action of the last entry that binds it.
pub proof fn lemma_from_config_last_entry_wins(
    entries: Seq<(Seq<char>, Seq<char>)>,
    at: int,
    key: KeyStroke,
    action: Action,
)
    requires
        spec_from_config(entries) is Ok,
        0 <= at < entries.len(),
        entry_binds(entries[at], key, action),
        forall|j: int| at < j < entries.len() ==> !entry_binds_key(#[trigger] entries[j], key),
    ensures
        spec_from_config(entries)->Ok_0.contains_key(key),
        spec_from_config(entries)->Ok_0[key] == action,
    decreases entries.len(),
{
    let front = entries.drop_last();
    if at < entries.len() - 1 {
        let last = entries[entries.len() - 1];
        assert(!entry_binds_key(last, key));
        let bound = spec_parse_binding(last.0, last.1)->Ok_0;
        assert(entry_binds(last, bound.0, bound.1));
        assert(bound.0 != key);
        assert(front[at] == entries[at]);
        assert forall|j: int| at < j < front.len() implies !entry_binds_key(
            #[trigger] front[j],
            key,
        ) by {
            assert(front[j] == entries[j]);
        }
        lemma_from_config_last_entry_wins(front, at, key, action);
    }
}

/// The table that a configuration yields binds no key but those that its
/// entries bind.
pub proof fn lemma_from_config_binds_only_configured(
    entries: Seq<(Seq<char>, Seq<char>)>,
    key: KeyStroke,
) -> (at: int)
    requires
        spec_from_config(entries) is Ok,
        spec_from_config(entries)->Ok_0.contains_key(key),
    ensures
        0 <= at < entries.len(),
        entry_binds(entries[at], key, spec_from_config(entries)->Ok_0[key]),
        forall|j: int| at < j < entries.len() ==> !entry_binds_key(#[trigger] entries[j], key),
    decreases entries.len(),
{
    let front = entries.drop_last();
    let last = entries[entries.len() - 1];
    let bound = spec_parse_binding(last.0, last.1)->Ok_0;
    if bound.0 == key {
        entries.len() - 1
    } else {
        let at = lemma_from_config_binds_only_configured(front, key);
        assert(front[at] == entries[at]);
        assert forall|j: int| at < j < entries.len() implies !entry_binds_key(
            #[trigger] entries[j],
            key,
        ) by {
            if j < front.len() {
                assert(front[j] == entries[j]);
            }
        }
        at
    }
}

/// The table of a configuration that is a mapping holds every entry: no
/// entry replaces another, so the order of the entries does not matter to
/// the table.
pub proof fn lemma_from_config_of_mapping_holds_every_entry(
    entries: Seq<(Seq<char>, Seq<char>)>,
    at: int,
    key: KeyStroke,
    action: Action,
)
    requires
        spec_from_config(entries) is Ok,
        is_mapping(entries),
        0 <= at < entries.len(),
        entry_binds(entries[at], key, action),
    ensures
        spec_from_config(entries)->Ok_0.contains_key(key),
        spec_from_config(entries)->Ok_0[key] == action,
{
    assert forall|j: int| at < j < entries.len() implies !entry_binds_key(
        #[trigger] entries[j],
        key,
    ) by {
        if entry_binds_key(entries[j], key) {
            lemma_description_names_one_key(entries[at].0, entries[j].0);
        }
    }
    lemma_from_config_last_entry_wins(entries, at, key, action);
}

} // verus!
