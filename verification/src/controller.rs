//! The session with the backend: how it comes about, and what each key
//! event makes it say.

use crate::actions::Action;
use crate::keyboard::KeyStroke;
use crate::mode::dispatch;
use crate::mode::Bindings;
use crate::mode::Dispatcher;
use crate::mode::Mode;
use crate::mode::Outcome;
use crate::protocol::notification_views;
use crate::protocol::spec_read_reply;
use crate::protocol::EditCommand;
use crate::protocol::NewViewRequest;
use crate::protocol::Notification;
use crate::protocol::NotificationView;
use crate::protocol::Reply;
use crate::protocol::ReplyView;
use crate::protocol::SessionError;
use crate::terminal::Input;
use vstd::prelude::*;

verus! {

/// A session: one view of the backend, and the size of the terminal that
/// shows it. There is no session without a view identifier, and the
/// identifier never changes.
#[derive(Debug)]
pub struct Controller {
    view_id: String,
    size_y: i32,
    size_x: i32,
}

/// What a session holds.
pub struct Session {
    /// The identifier that the backend gave the view.
    pub view_id: Seq<char>,
    /// The terminal's width, in columns.
    pub width: i32,
    /// The terminal's height, in rows.
    pub height: i32,
}

impl View for Controller {
    type V = Session;

    closed spec fn view(&self) -> Session {
        Session { view_id: self.view_id@, width: self.size_x, height: self.size_y }
    }
}

/// What the event loop does next.
#[derive(Debug, PartialEq, Eq)]
pub enum Step {
    /// Send the notification, if there is one, then read on in `mode`.
    Continue { mode: Mode, notification: Option<Notification> },
    /// Ask the terminal for its size, hand it to `resize`, send what that
    /// returns, then read on in the same mode.
    Measure,
    /// Leave the loop.
    Stop,
}

/// A `Step` with its notification by its view.
pub enum StepView {
    Continue { mode: Mode, notification: Option<NotificationView> },
    Measure,
    Stop,
}

impl View for Step {
    type V = StepView;

    open spec fn view(&self) -> StepView {
        match self {
            Step::Continue { mode, notification } => StepView::Continue {
                mode: *mode,
                notification: match notification {
                    Some(notification) => Some(notification@),
                    None => None,
                },
            },
            Step::Measure => StepView::Measure,
            Step::Stop => StepView::Stop,
        }
    }
}

/// The session that a reply to the request for a view opens in a terminal
/// of `size_y` rows and `size_x` columns, with the two notifications that
/// follow: the terminal's size, and a scroll to the top. A reply without a
/// view identifier opens no session.
pub open spec fn spec_open_file(reply: ReplyView, size_y: i32, size_x: i32) -> Result<
    (Session, Seq<NotificationView>),
    SessionError,
> {
    match spec_read_reply(reply) {
        Err(error) => Err(error),
        Ok(view_id) => Ok(
            (
                Session { view_id, width: size_x, height: size_y },
                seq![
                    NotificationView::Resize { view_id, width: size_x, height: size_y },
                    NotificationView::Scroll { view_id, top: 0, bottom: size_y },
                ],
            ),
        ),
    }
}

/// The notification that tells the backend of `outcome`, if it is to hear
/// of it: an edit for a movement or a paste, an insertion for a character
/// of text.
pub open spec fn spec_notification(view_id: Seq<char>, outcome: Outcome) -> Option<
    NotificationView,
> {
    match outcome {
        Outcome::Perform(action) => match EditCommand::spec_from_action(action) {
            Some(command) => Some(NotificationView::Edit { view_id, command }),
            None => None,
        },
        Outcome::LiteralInsert(c) => Some(NotificationView::Insert { view_id, chars: seq![c] }),
        Outcome::NoOp => None,
    }
}

/// What a key that was read in `mode` makes of the event loop: `None`
/// where it is bound to the exit; else the mode to read on in, with the
/// notification to send first, if there is one.
pub open spec fn spec_on_key(session: Session, bindings: Bindings, mode: Mode, key: KeyStroke) -> Option<
    (Mode, Option<NotificationView>),
> {
    let (outcome, next) = dispatch(bindings, mode, key);
    if outcome == Outcome::Perform(Action::Exit) {
        None
    } else {
        Some((next, spec_notification(session.view_id, outcome)))
    }
}

/// One turn of the event loop, on what was read in `mode`. The end of the
/// input, and a key bound to the exit, leave the loop. Any other key is
/// dispatched in the mode in force. A change of size asks for the new
/// size. What is unknown is passed over.
pub open spec fn spec_step(session: Session, bindings: Bindings, mode: Mode, input: Input) -> StepView {
    match input {
        Input::Closed => StepView::Stop,
        Input::Resized => StepView::Measure,
        Input::Unknown => StepView::Continue { mode, notification: None },
        Input::Key(key) => match spec_on_key(session, bindings, mode, key) {
            None => StepView::Stop,
            Some((next, notification)) => StepView::Continue { mode: next, notification },
        },
    }
}

/// The event loop over the keys of `keys`, from `mode` on: the
/// notifications that it sends, in order, and the mode in which it ends. It
/// ends at the first key bound to the exit, or with the keys.
pub open spec fn spec_run(session: Session, bindings: Bindings, mode: Mode, keys: Seq<KeyStroke>) -> (
    Seq<NotificationView>,
    Mode,
)
    decreases keys.len(),
{
    if keys.len() == 0 {
        (Seq::empty(), mode)
    } else {
        match spec_on_key(session, bindings, mode, keys[0]) {
            None => (Seq::empty(), mode),
            Some((next, notification)) => {
                let (rest, last) = spec_run(session, bindings, next, keys.drop_first());
                match notification {
                    Some(first) => (seq![first] + rest, last),
                    None => (rest, last),
                }
            },
        }
    }
}

/// `String::from` on a `char`: a text that holds this one character.
#[verifier::external_body]
fn text_of_char(c: char) -> (text: String)
    ensures
        text@ == seq![c],
{
    String::from(c)
}

impl Controller {
    /// What opens the conversation with the backend: the notification that
    /// the client has started, then the request for a view of the file.
    pub fn handshake(config_dir: &str, file_path: &str) -> (opening: (
        Notification,
        NewViewRequest,
    ))
        ensures
            opening.0@ == (NotificationView::ClientStarted { config_dir: config_dir@ }),
            opening.1.file_path@ == file_path@,
    {
        (
            Notification::ClientStarted { config_dir: config_dir.to_owned() },
            NewViewRequest { file_path: file_path.to_owned() },
        )
    }

    /// Opens the session from the reply to the request for a view and the
    /// terminal's size, and says what the backend is to hear next. Without
    /// a view identifier there is no session, not even half of one.
    pub fn open_file(reply: &Reply, size_y: i32, size_x: i32) -> (opened: Result<
        (Controller, Vec<Notification>),
        SessionError,
    >)
        ensures
            match opened {
                Ok((controller, sent)) => spec_open_file(reply@, size_y, size_x) == Ok::<
                    (Session, Seq<NotificationView>),
                    SessionError,
                >((controller@, notification_views(sent@))),
                Err(error) => spec_open_file(reply@, size_y, size_x) == Err::<
                    (Session, Seq<NotificationView>),
                    SessionError,
                >(error),
            },
    {
        match reply.view_id() {
            Err(error) => Err(error),
            Ok(view_id) => {
                let mut sent: Vec<Notification> = Vec::new();
                sent.push(
                    Notification::Resize { view_id: view_id.clone(), width: size_x, height: size_y },
                );
                sent.push(Notification::Scroll { view_id: view_id.clone(), top: 0, bottom: size_y });
                let controller = Controller { view_id, size_y, size_x };
                proof {
                    assert(notification_views(sent@) =~= seq![
                        NotificationView::Resize {
                            view_id: controller@.view_id,
                            width: size_x,
                            height: size_y,
                        },
                        NotificationView::Scroll {
                            view_id: controller@.view_id,
                            top: 0,
                            bottom: size_y,
                        },
                    ]);
                }
                Ok((controller, sent))
            },
        }
    }

    /// The identifier of the session's view.
    pub fn view_id(&self) -> (view_id: &str)
        ensures
            view_id@ == self@.view_id,
    {
        self.view_id.as_str()
    }

    /// The terminal's width, in columns, as the session last heard of it.
    pub fn width(&self) -> (width: i32)
        ensures
            width == self@.width,
    {
        self.size_x
    }

    /// The terminal's height, in rows, as the session last heard of it.
    pub fn height(&self) -> (height: i32)
        ensures
            height == self@.height,
    {
        self.size_y
    }

    /// Takes note of the terminal's new size, and says what the backend is
    /// to hear of it. The view stays the same.
    pub fn resize(&mut self, size_y: i32, size_x: i32) -> (notification: Notification)
        ensures
            final(self)@ == (Session { view_id: old(self)@.view_id, width: size_x, height: size_y }),
            notification@ == (NotificationView::Resize {
                view_id: old(self)@.view_id,
                width: size_x,
                height: size_y,
            }),
    {
        self.size_y = size_y;
        self.size_x = size_x;
        Notification::Resize { view_id: self.view_id.clone(), width: size_x, height: size_y }
    }

    fn on_key(&self, dispatcher: &Dispatcher, mode: Mode, key: KeyStroke) -> (turn: Option<
        (Mode, Option<Notification>),
    >)
        ensures
            match turn {
                None => spec_on_key(self@, dispatcher@, mode, key) is None,
                Some((next, None)) => spec_on_key(self@, dispatcher@, mode, key) == Some(
                    (next, None::<NotificationView>),
                ),
                Some((next, Some(notification))) => spec_on_key(self@, dispatcher@, mode, key)
                    == Some((next, Some(notification@))),
            },
    {
        let (outcome, next) = dispatcher.on_keystroke(mode, key);
        match outcome {
            Outcome::Perform(Action::Exit) => None,
            Outcome::Perform(action) => match EditCommand::from_action(action) {
                Some(command) => Some(
                    (next, Some(Notification::Edit { view_id: self.view_id.clone(), command })),
                ),
                None => Some((next, None)),
            },
            Outcome::LiteralInsert(c) => Some(
                (
                    next,
                    Some(
                        Notification::Insert {
                            view_id: self.view_id.clone(),
                            chars: text_of_char(c),
                        },
                    ),
                ),
            ),
            Outcome::NoOp => Some((next, None)),
        }
    }

    /// One turn of the event loop: what to do on `input`, which was read in
    /// `mode`.
    pub fn step(&self, dispatcher: &Dispatcher, mode: Mode, input: Input) -> (step: Step)
        ensures
            step@ == spec_step(self@, dispatcher@, mode, input),
    {
        match input {
            Input::Closed => Step::Stop,
            Input::Resized => Step::Measure,
            Input::Unknown => Step::Continue { mode, notification: None },
            Input::Key(key) => match self.on_key(dispatcher, mode, key) {
                None => Step::Stop,
                Some((next, notification)) => Step::Continue { mode: next, notification },
            },
        }
    }

    /// Runs the event loop over recorded input: the keys of `keys` in
    /// order, from normal mode on. Returns the notifications that the
    /// backend is to receive, in order, and the mode in which the loop
    /// ended. A key bound to the exit ends the loop, and so does the end of
    /// the keys.
    pub fn start_keyboard_event_loop(&self, dispatcher: &Dispatcher, keys: &Vec<KeyStroke>) -> (run:
        (Vec<Notification>, Mode))
        ensures
            (notification_views(run.0@), run.1) == spec_run(
                self@,
                dispatcher@,
                Mode::Normal,
                keys@,
            ),
    {
        let mut sent: Vec<Notification> = Vec::new();
        let mut mode = Mode::Normal;
        let mut i: usize = 0;
        proof {
            assert(keys@.skip(0) =~= keys@);
            assert(notification_views(sent@) + spec_run(self@, dispatcher@, mode, keys@).0
                =~= spec_run(self@, dispatcher@, mode, keys@).0);
        }
        while i < keys.len()
            invariant
                i <= keys.len(),
                spec_run(self@, dispatcher@, Mode::Normal, keys@) == (
                    notification_views(sent@) + spec_run(
                        self@,
                        dispatcher@,
                        mode,
                        keys@.skip(i as int),
                    ).0,
                    spec_run(self@, dispatcher@, mode, keys@.skip(i as int)).1,
                ),
            decreases keys.len() - i,
        {
            let ghost rest = keys@.skip(i as int);
            let ghost before = notification_views(sent@);
            proof {
                assert(rest[0] == keys@[i as int]);
                assert(rest.drop_first() =~= keys@.skip(i + 1));
            }
            match self.on_key(dispatcher, mode, keys[i]) {
                None => {
                    proof {
                        assert(before + Seq::<NotificationView>::empty() =~= before);
                    }
                    return (sent, mode);
                },
                Some((next, notification)) => {
                    match notification {
                        Some(first) => {
                            let ghost tail = spec_run(
                                self@,
                                dispatcher@,
                                next,
                                keys@.skip(i + 1),
                            ).0;
                            sent.push(first);
                            proof {
                                assert(notification_views(sent@) =~= before + seq![first@]);
                                assert((before + seq![first@]) + tail =~= before + (seq![first@]
                                    + tail));
                            }
                        },
                        None => {},
                    }
                    mode = next;
                },
            }
            i += 1;
        }
        proof {
            assert(notification_views(sent@) + Seq::<NotificationView>::empty()
                =~= notification_views(sent@));
        }
        (sent, mode)
    }
}

/// A turn of the event loop says nothing to the backend but an edit or an
/// insertion in the session's own view.
pub proof fn lemma_step_addresses_the_view(
    session: Session,
    bindings: Bindings,
    mode: Mode,
    input: Input,
)
    ensures
        match spec_step(session, bindings, mode, input) {
            StepView::Continue { notification: Some(sent), .. } => {
                &&& sent.addressee() == Some(session.view_id)
                &&& sent is Edit || sent is Insert
            },
            _ => true,
        },
{
}

/// The mode that the event loop reads on in differs from the one in force
/// only after a key that is bound to a switch.
pub proof fn lemma_step_changes_mode_only_on_switch(
    session: Session,
    bindings: Bindings,
    mode: Mode,
    input: Input,
)
    requires
        spec_step(session, bindings, mode, input) matches StepView::Continue { mode: next, .. }
            && next != mode,
    ensures
        input is Key,
        bindings.of(mode).contains_key(input->Key_0),
        bindings.of(mode)[input->Key_0].spec_target_mode() is Some,
        spec_step(session, bindings, mode, input) == (StepView::Continue {
            mode: bindings.of(mode)[input->Key_0].spec_target_mode()->0,
            notification: None,
        }),
{
}

/// A key that is not bound is passed over in silence, unless it is text in
/// insert mode: then the backend hears of that one character.
pub proof fn lemma_unbound_key_sends_only_text(
    session: Session,
    bindings: Bindings,
    mode: Mode,
    key: KeyStroke,
)
    requires
        !bindings.of(mode).contains_key(key),
    ensures
        spec_step(session, bindings, mode, Input::Key(key)) == (StepView::Continue {
            mode,
            notification: match dispatch(bindings, mode, key).0 {
                Outcome::LiteralInsert(c) => Some(
                    NotificationView::Insert { view_id: session.view_id, chars: seq![c] },
                ),
                _ => None,
            },
        }),
{
}

/// Whatever the keys, the event loop says nothing to the backend but edits
/// and insertions in the session's own view.
pub proof fn lemma_run_addresses_the_view(
    session: Session,
    bindings: Bindings,
    mode: Mode,
    keys: Seq<KeyStroke>,
)
    ensures
        forall|i: int|
            0 <= i < spec_run(session, bindings, mode, keys).0.len() ==> {
                let sent = #[trigger] spec_run(session, bindings, mode, keys).0[i];
                &&& sent.addressee() == Some(session.view_id)
                &&& sent is Edit || sent is Insert
            },
    decreases keys.len(),
{
    if keys.len() > 0 {
        lemma_step_addresses_the_view(session, bindings, mode, Input::Key(keys[0]));
        match spec_on_key(session, bindings, mode, keys[0]) {
            None => {},
            Some((next, notification)) => {
                lemma_run_addresses_the_view(session, bindings, next, keys.drop_first());
            },
        }
    }
}

/// The event loop sends at most one notification for each key.
pub proof fn lemma_run_sends_at_most_one_per_key(
    session: Session,
    bindings: Bindings,
    mode: Mode,
    keys: Seq<KeyStroke>,
)
    ensures
        spec_run(session, bindings, mode, keys).0.len() <= keys.len(),
    decreases keys.len(),
{
    if keys.len() > 0 {
        match spec_on_key(session, bindings, mode, keys[0]) {
            None => {},
            Some((next, notification)) => {
                lemma_run_sends_at_most_one_per_key(session, bindings, next, keys.drop_first());
            },
        }
    }
}

/// The event loop over recorded keys does what its turns do one after the
/// other: after a first key that does not end it, it goes on with the rest
/// of the keys from the mode that the first key left.
pub proof fn lemma_run_is_step_by_step(
    session: Session,
    bindings: Bindings,
    mode: Mode,
    keys: Seq<KeyStroke>,
)
    requires
        keys.len() > 0,
    ensures
        match spec_step(session, bindings, mode, Input::Key(keys[0])) {
            StepView::Continue { mode: next, notification: Some(first) } => spec_run(
                session,
                bindings,
                mode,
                keys,
            ) == (
                seq![first] + spec_run(session, bindings, next, keys.drop_first()).0,
                spec_run(session, bindings, next, keys.drop_first()).1,
            ),
            StepView::Continue { mode: next, notification: None } => spec_run(
                session,
                bindings,
                mode,
                keys,
            ) == spec_run(session, bindings, next, keys.drop_first()),
            _ => spec_run(session, bindings, mode, keys) == (
                Seq::<NotificationView>::empty(),
                mode,
            ),
        },
{
}

} // verus!
