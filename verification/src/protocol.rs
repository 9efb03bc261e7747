//! What the session says to the backend, and what it hears from it.

use crate::actions::Action;
use crate::keyboard::same_text;
use vstd::prelude::*;

verus! {

/// An edit that takes no parameter: a movement of the cursor, or a paste.
#[derive(Debug, Clone, Copy, Hash, PartialEq, Eq, Structural)]
pub enum EditCommand {
    MoveUp,
    MoveDown,
    MoveLeft,
    MoveRight,
    PageUp,
    PageDown,
    Paste,
}

impl EditCommand {
    /// The edit that carries out `action`. Mode switches and the exit are
    /// the front-end's own business: the backend hears nothing of them.
    pub open spec fn spec_from_action(action: Action) -> Option<EditCommand> {
        match action {
            Action::MoveUp => Some(EditCommand::MoveUp),
            Action::MoveDown => Some(EditCommand::MoveDown),
            Action::MoveLeft => Some(EditCommand::MoveLeft),
            Action::MoveRight => Some(EditCommand::MoveRight),
            Action::PageUp => Some(EditCommand::PageUp),
            Action::PageDown => Some(EditCommand::PageDown),
            Action::Paste => Some(EditCommand::Paste),
            Action::SwitchToInsertMode => None,
            Action::SwitchToVisualMode => None,
            Action::SwitchToNormalMode => None,
            Action::Exit => None,
        }
    }

    /// The edit that carries out `action`, if the backend is to hear of it.
    pub fn from_action(action: Action) -> (command: Option<EditCommand>)
        ensures
            command == EditCommand::spec_from_action(action),
    {
        match action {
            Action::MoveUp => Some(EditCommand::MoveUp),
            Action::MoveDown => Some(EditCommand::MoveDown),
            Action::MoveLeft => Some(EditCommand::MoveLeft),
            Action::MoveRight => Some(EditCommand::MoveRight),
            Action::PageUp => Some(EditCommand::PageUp),
            Action::PageDown => Some(EditCommand::PageDown),
            Action::Paste => Some(EditCommand::Paste),
            Action::SwitchToInsertMode => None,
            Action::SwitchToVisualMode => None,
            Action::SwitchToNormalMode => None,
            Action::Exit => None,
        }
    }

    /// The name of this edit in the protocol.
    pub open spec fn spec_method(self) -> Seq<char> {
        match self {
            EditCommand::MoveUp => "move_up"@,
            EditCommand::MoveDown => "move_down"@,
            EditCommand::MoveLeft => "move_left"@,
            EditCommand::MoveRight => "move_right"@,
            EditCommand::PageUp => "page_up"@,
            EditCommand::PageDown => "page_down"@,
            EditCommand::Paste => "paste"@,
        }
    }

    /// The name of this edit in the protocol.
    pub fn method(&self) -> (name: &'static str)
        ensures
            name@ == self.spec_method(),
    {
        match self {
            EditCommand::MoveUp => "move_up",
            EditCommand::MoveDown => "move_down",
            EditCommand::MoveLeft => "move_left",
            EditCommand::MoveRight => "move_right",
            EditCommand::PageUp => "page_up",
            EditCommand::PageDown => "page_down",
            EditCommand::Paste => "paste",
        }
    }
}

/// A one-way message to the backend.
#[derive(Debug, PartialEq, Eq)]
pub enum Notification {
    /// The client has started; its configuration lies in `config_dir`.
    ClientStarted { config_dir: String },
    /// The view now shows `width` columns and `height` rows.
    Resize { view_id: String, width: i32, height: i32 },
    /// The view shows the lines from `top` to `bottom`.
    Scroll { view_id: String, top: i32, bottom: i32 },
    /// Carry out `command` in the view.
    Edit { view_id: String, command: EditCommand },
    /// Insert `chars` in the view, at the cursor.
    Insert { view_id: String, chars: String },
}

/// A `Notification` with its texts as sequences of characters.
pub enum NotificationView {
    ClientStarted { config_dir: Seq<char> },
    Resize { view_id: Seq<char>, width: i32, height: i32 },
    Scroll { view_id: Seq<char>, top: i32, bottom: i32 },
    Edit { view_id: Seq<char>, command: EditCommand },
    Insert { view_id: Seq<char>, chars: Seq<char> },
}

impl View for Notification {
    type V = NotificationView;

    open spec fn view(&self) -> NotificationView {
        match self {
            Notification::ClientStarted { config_dir } => NotificationView::ClientStarted {
                config_dir: config_dir@,
            },
            Notification::Resize { view_id, width, height } => NotificationView::Resize {
                view_id: view_id@,
                width: *width,
                height: *height,
            },
            Notification::Scroll { view_id, top, bottom } => NotificationView::Scroll {
                view_id: view_id@,
                top: *top,
                bottom: *bottom,
            },
            Notification::Edit { view_id, command } => NotificationView::Edit {
                view_id: view_id@,
                command: *command,
            },
            Notification::Insert { view_id, chars } => NotificationView::Insert {
                view_id: view_id@,
                chars: chars@,
            },
        }
    }
}

impl Notification {
    /// The name under which the backend receives this notification.
    pub fn method(&self) -> (name: &'static str)
        ensures
            name@ == self@.method(),
    {
        match self {
            Notification::ClientStarted { .. } => "client_started",
            _ => "edit",
        }
    }

    /// For a notification that the backend receives as an edit, the name of
    /// the edit.
    pub fn edit_method(&self) -> (name: Option<&'static str>)
        ensures
            match name {
                Some(name) => self@.edit_method() == Some(name@),
                None => self@.edit_method() is None,
            },
    {
        match self {
            Notification::ClientStarted { .. } => None,
            Notification::Resize { .. } => Some("resize"),
            Notification::Scroll { .. } => Some("scroll"),
            Notification::Edit { command, .. } => Some(command.method()),
            Notification::Insert { .. } => Some("insert"),
        }
    }
}

impl NotificationView {
    /// The name under which the backend receives this notification.
    pub open spec fn method(self) -> Seq<char> {
        match self {
            NotificationView::ClientStarted { .. } => "client_started"@,
            _ => "edit"@,
        }
    }

    /// For a notification that the backend receives as an edit, the name of
    /// the edit.
    pub open spec fn edit_method(self) -> Option<Seq<char>> {
        match self {
            NotificationView::ClientStarted { .. } => None,
            NotificationView::Resize { .. } => Some("resize"@),
            NotificationView::Scroll { .. } => Some("scroll"@),
            NotificationView::Edit { command, .. } => Some(command.spec_method()),
            NotificationView::Insert { .. } => Some("insert"@),
        }
    }

    /// The view that this notification is addressed to, if it is addressed
    /// to one.
    pub open spec fn addressee(self) -> Option<Seq<char>> {
        match self {
            NotificationView::ClientStarted { .. } => None,
            NotificationView::Resize { view_id, .. } => Some(view_id),
            NotificationView::Scroll { view_id, .. } => Some(view_id),
            NotificationView::Edit { view_id, .. } => Some(view_id),
            NotificationView::Insert { view_id, .. } => Some(view_id),
        }
    }
}

/// The notifications of a sequence, each by its view.
pub open spec fn notification_views(sent: Seq<Notification>) -> Seq<NotificationView> {
    sent.map_values(|notification: Notification| notification@)
}

/// The request that creates a view for a file.
#[derive(Debug, PartialEq, Eq)]
pub struct NewViewRequest {
    pub file_path: String,
}

impl NewViewRequest {
    /// The name under which the backend receives this request.
    pub fn method(&self) -> (name: &'static str)
        ensures
            name@ == "new_view"@,
    {
        "new_view"
    }
}

/// What the backend answered to a request, as far as the session reads it.
#[derive(Debug, PartialEq, Eq)]
pub enum Payload {
    /// A text.
    Text(String),
    /// An object: the name of each field, with its value where that is a
    /// text.
    Object(Vec<(String, Option<String>)>),
    /// Anything else.
    Other,
}

/// A `Payload` with its texts as sequences of characters.
pub enum PayloadView {
    Text(Seq<char>),
    Object(Seq<(Seq<char>, Option<Seq<char>>)>),
    Other,
}

/// A field's value as a sequence of characters.
pub open spec fn field_value_view(value: Option<String>) -> Option<Seq<char>> {
    match value {
        Some(text) => Some(text@),
        None => None,
    }
}

/// The fields of an object, their texts as sequences of characters.
pub open spec fn field_views(fields: Seq<(String, Option<String>)>) -> Seq<
    (Seq<char>, Option<Seq<char>>),
> {
    Seq::new(fields.len(), |i: int| (fields[i].0@, field_value_view(fields[i].1)))
}

impl View for Payload {
    type V = PayloadView;

    open spec fn view(&self) -> PayloadView {
        match self {
            Payload::Text(text) => PayloadView::Text(text@),
            Payload::Object(fields) => PayloadView::Object(field_views(fields@)),
            Payload::Other => PayloadView::Other,
        }
    }
}

/// How a request ended.
#[derive(Debug, PartialEq, Eq)]
pub enum Reply {
    /// The request could not be completed: the connection is gone.
    Dropped,
    /// The backend answered.
    Answer(Payload),
}

/// A `Reply` with its payload by its view.
pub enum ReplyView {
    Dropped,
    Answer(PayloadView),
}

impl View for Reply {
    type V = ReplyView;

    open spec fn view(&self) -> ReplyView {
        match self {
            Reply::Dropped => ReplyView::Dropped,
            Reply::Answer(payload) => ReplyView::Answer(payload@),
        }
    }
}

/// Why no session came about.
#[derive(Debug, Clone, Copy, PartialEq, Eq, Structural)]
pub enum SessionError {
    /// The request for a view could not be completed.
    BackendUnavailable,
    /// The backend's answer holds no view identifier, or one that is no
    /// text.
    ProtocolError,
}

/// The identifier in the first field named `id`, if that field is a text.
pub open spec fn spec_id_field(fields: Seq<(Seq<char>, Option<Seq<char>>)>) -> Option<Seq<char>>
    decreases fields.len(),
{
    if fields.len() == 0 {
        None
    } else if fields[0].0 == "id"@ {
        fields[0].1
    } else {
        spec_id_field(fields.drop_first())
    }
}

/// The view identifier that an answer holds: the answer itself where it is
/// a text, the field `id` where it is an object.
pub open spec fn spec_view_id(payload: PayloadView) -> Option<Seq<char>> {
    match payload {
        PayloadView::Text(text) => Some(text),
        PayloadView::Object(fields) => spec_id_field(fields),
        PayloadView::Other => None,
    }
}

/// The view identifier that a reply to the request for a view gives, or
/// the reason why it gives none.
pub open spec fn spec_read_reply(reply: ReplyView) -> Result<Seq<char>, SessionError> {
    match reply {
        ReplyView::Dropped => Err(SessionError::BackendUnavailable),
        ReplyView::Answer(payload) => match spec_view_id(payload) {
            Some(view_id) => Ok(view_id),
            None => Err(SessionError::ProtocolError),
        },
    }
}

fn id_field(fields: &Vec<(String, Option<String>)>) -> (id: Option<String>)
    ensures
        field_value_view(id) == spec_id_field(field_views(fields@)),
{
    let mut i: usize = 0;
    assert(field_views(fields@).skip(0) =~= field_views(fields@));
    while i < fields.len()
        invariant
            i <= fields.len(),
            spec_id_field(field_views(fields@)) == spec_id_field(
                field_views(fields@).skip(i as int),
            ),
        decreases fields.len() - i,
    {
        let field = &fields[i];
        proof {
            let rest = field_views(fields@).skip(i as int);
            assert(rest[0] == field_views(fields@)[i as int]);
            assert(rest.drop_first() =~= field_views(fields@).skip(i + 1));
        }
        if same_text(field.0.as_str(), "id") {
            return match &field.1 {
                Some(text) => Some(text.clone()),
                None => None,
            };
        }
        i += 1;
    }
    None
}

impl Reply {
    /// Reads the reply to the request for a view: the view's identifier, or
    /// the reason why there is none.
    pub fn view_id(&self) -> (read: Result<String, SessionError>)
        ensures
            match read {
                Ok(view_id) => spec_read_reply(self@) == Ok::<Seq<char>, SessionError>(view_id@),
                Err(error) => spec_read_reply(self@) == Err::<Seq<char>, SessionError>(error),
            },
    {
        match self {
            Reply::Dropped => Err(SessionError::BackendUnavailable),
            Reply::Answer(payload) => {
                let found = match payload {
                    Payload::Text(text) => Some(text.clone()),
                    Payload::Object(fields) => id_field(fields),
                    Payload::Other => None,
                };
                match found {
                    Some(view_id) => Ok(view_id),
                    None => Err(SessionError::ProtocolError),
                }
            },
        }
    }
}

} // verus!
