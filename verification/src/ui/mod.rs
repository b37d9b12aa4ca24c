//! The windows in which the user is asked.
//!
//! A window puts one question and gives one answer. Whoever draws the window hands in what the
//! user does and sends the answer on.

use crate::model::Permission;
use messages::{ReplyClientName, ReplyPermission, RequestClientName, RequestPermission};
use vstd::prelude::*;
use vstd::string::*;

pub mod laws;
pub mod messages;

verus! {

/// What becomes of a window.
#[derive(Clone, Copy, Debug, PartialEq, Eq, Structural)]
pub enum WindowAction {
    /// It stays as it is.
    Stay,
    /// It is asked to close.
    Close,
    /// It is hidden.
    Hide,
}

/// What the user does with the window that asks for a permission.
#[derive(Clone, Copy, Debug, PartialEq, Eq, Structural)]
pub enum PermissionEvent {
    AllowAlways,
    AllowOnce,
    DenyAlways,
    /// The window is asked to close.
    CloseRequest,
}

/// The answer for which an event stands.
pub open spec fn permission_reply(event: PermissionEvent) -> ReplyPermission {
    match event {
        PermissionEvent::AllowAlways => ReplyPermission { now: true, future: Permission::Yes },
        PermissionEvent::AllowOnce => ReplyPermission { now: true, future: Permission::Ask },
        PermissionEvent::DenyAlways => ReplyPermission { now: false, future: Permission::No },
        PermissionEvent::CloseRequest => ReplyPermission { now: false, future: Permission::Ask },
    }
}

/// What comes of an event: the answer, where it was not given before, and what becomes of the
/// window.
pub open spec fn permission_step(
    answered: bool,
    event: PermissionEvent,
) -> (Option<ReplyPermission>, WindowAction) {
    (
        if answered {
            None
        } else {
            Some(permission_reply(event))
        },
        if event is CloseRequest {
            WindowAction::Hide
        } else {
            WindowAction::Close
        },
    )
}

/// What the window that asks for a permission says.
pub open spec fn permission_markup(pk_openssh: Seq<char>, action: Seq<char>) -> Seq<char> {
    "Allow\n<b>"@ + pk_openssh + "</b>\nto "@ + action + "?"@
}

/// The window that asks for a permission.
pub struct PermissionDialog {
    req: RequestPermission,
    answered: bool,
}

impl PermissionDialog {
    /// The key that the window shows.
    pub closed spec fn pk_openssh(self) -> Seq<char> {
        self.req.pk_openssh@
    }

    /// The action that the window shows.
    pub closed spec fn action(self) -> Seq<char> {
        self.req.action@
    }

    /// Whether the answer was given.
    pub closed spec fn answered(self) -> bool {
        self.answered
    }

    /// A window that puts a question.
    pub fn new(req: RequestPermission) -> (dialog: Self)
        ensures
            dialog.pk_openssh() == req.pk_openssh@,
            dialog.action() == req.action@,
            !dialog.answered(),
    {
        PermissionDialog { req, answered: false }
    }

    /// Whether the answer was given.
    pub fn is_answered(&self) -> (answered: bool)
        ensures
            answered == self.answered(),
    {
        self.answered
    }

    /// What the window says.
    pub fn markup(&self) -> (text: String)
        ensures
            text@ == permission_markup(self.pk_openssh(), self.action()),
            text@ == "Allow\n<b>"@ + self.pk_openssh() + "</b>\nto "@ + self.action() + "?"@,
    {
        let mut text: String = "Allow\n<b>".to_owned();
        text.append(&self.req.pk_openssh);
        text.append("</b>\nto ");
        text.append(&self.req.action);
        text.append("?");
        text
    }

    /// The user does something: the answer, where it is given now, and what becomes of the window.
    /// A button is there for one click.
    pub fn handle(&mut self, event: PermissionEvent) -> (done: (
        Option<ReplyPermission>,
        WindowAction,
    ))
        requires
            event is CloseRequest || !old(self).answered(),
        ensures
            done == permission_step(old(self).answered(), event),
            match done.0 {
                Some(reply) => {
                    &&& !old(self).answered()
                    &&& reply.now == (event is AllowAlways || event is AllowOnce)
                    &&& (reply.future is Yes) == (event is AllowAlways)
                    &&& (reply.future is No) == (event is DenyAlways)
                },
                None => old(self).answered(),
            },
            done.1 == if event is CloseRequest {
                WindowAction::Hide
            } else {
                WindowAction::Close
            },
            final(self).answered(),
            final(self).pk_openssh() == old(self).pk_openssh(),
            final(self).action() == old(self).action(),
    {
        let first: bool = !self.answered;
        self.answered = true;
        match event {
            PermissionEvent::AllowAlways => (
                Some(ReplyPermission { now: true, future: Permission::Yes }),
                WindowAction::Close,
            ),
            PermissionEvent::AllowOnce => (
                Some(ReplyPermission { now: true, future: Permission::Ask }),
                WindowAction::Close,
            ),
            PermissionEvent::DenyAlways => (
                Some(ReplyPermission { now: false, future: Permission::No }),
                WindowAction::Close,
            ),
            PermissionEvent::CloseRequest => if first {
                (
                    Some(ReplyPermission { now: false, future: Permission::Ask }),
                    WindowAction::Hide,
                )
            } else {
                (None, WindowAction::Hide)
            },
        }
    }
}

/// What the window that asks for a client's name says.
pub open spec fn client_name_markup(pk_openssh: Seq<char>) -> Seq<char> {
    "New client with key\n<b>"@ + pk_openssh + "</b>\n"@
}

/// What the user does with the window that asks for a client's name.
pub enum ClientNameEvent {
    /// Types: the name now reads like this.
    Changed(String),
    /// Saves the name.
    Save,
    /// The window is asked to close.
    CloseRequest,
}

/// What the user does with the window that asks for a client's name, over plain sequences.
pub enum ClientNameEventView {
    Changed(Seq<char>),
    Save,
    CloseRequest,
}

impl View for ClientNameEvent {
    type V = ClientNameEventView;

    open spec fn view(&self) -> ClientNameEventView {
        match *self {
            ClientNameEvent::Changed(name) => ClientNameEventView::Changed(name@),
            ClientNameEvent::Save => ClientNameEventView::Save,
            ClientNameEvent::CloseRequest => ClientNameEventView::CloseRequest,
        }
    }
}

/// The window that asks for a client's name: the name as it is typed in, and whether the answer
/// was given.
pub struct ClientNameView {
    pub name: Seq<char>,
    pub answered: bool,
}

impl ClientNameView {
    /// The window as it is opened: no name is typed in, and no answer was given.
    pub open spec fn opened() -> ClientNameView {
        ClientNameView { name: Seq::empty(), answered: false }
    }

    /// Whether the button for saving can be clicked: a name is typed in.
    pub open spec fn can_save(self) -> bool {
        self.name.len() > 0
    }

    /// Whether an event can happen: the name is saved with the button, which is there for one
    /// click.
    pub open spec fn can_happen(self, event: ClientNameEventView) -> bool {
        event is Save ==> self.can_save() && !self.answered
    }
}

/// What comes of an event: the window, the answer where it is given now, and what becomes of the
/// window.
pub struct ClientNameStep {
    pub window: ClientNameView,
    pub reply: Option<Option<Seq<char>>>,
    pub action: WindowAction,
}

/// What comes of an event.
pub open spec fn client_name_step(
    window: ClientNameView,
    event: ClientNameEventView,
) -> ClientNameStep {
    match event {
        ClientNameEventView::Changed(name) => ClientNameStep {
            window: ClientNameView { name, ..window },
            reply: None,
            action: WindowAction::Stay,
        },
        ClientNameEventView::Save => ClientNameStep {
            window: ClientNameView { answered: true, ..window },
            reply: if window.answered {
                None
            } else {
                Some(Some(window.name))
            },
            action: WindowAction::Close,
        },
        ClientNameEventView::CloseRequest => ClientNameStep {
            window: ClientNameView { answered: true, ..window },
            reply: if window.answered {
                None
            } else {
                Some(None)
            },
            action: WindowAction::Hide,
        },
    }
}

/// An answer to the question for a client's name, where there is one.
pub open spec fn client_name_reply(reply: Option<ReplyClientName>) -> Option<Option<Seq<char>>> {
    match reply {
        Some(ReplyClientName { name: Some(name) }) => Some(Some(name@)),
        Some(ReplyClientName { name: None }) => Some(None),
        None => None,
    }
}

/// The window that asks for a client's name.
pub struct ClientNameDialog {
    req: RequestClientName,
    name: String,
    answered: bool,
}

impl View for ClientNameDialog {
    type V = ClientNameView;

    closed spec fn view(&self) -> ClientNameView {
        ClientNameView { name: self.name@, answered: self.answered }
    }
}

impl ClientNameDialog {
    /// The key that the window shows.
    pub closed spec fn pk_openssh(self) -> Seq<char> {
        self.req.pk_openssh@
    }

    /// A window that puts a question.
    pub fn new(req: RequestClientName) -> (dialog: Self)
        ensures
            dialog.pk_openssh() == req.pk_openssh@,
            dialog@ == ClientNameView::opened(),
            dialog@.name.len() == 0,
            !dialog@.answered,
    {
        ClientNameDialog { req, name: String::new(), answered: false }
    }

    /// Whether the answer was given.
    pub fn is_answered(&self) -> (answered: bool)
        ensures
            answered == self@.answered,
    {
        self.answered
    }

    /// What the window says.
    pub fn markup(&self) -> (text: String)
        ensures
            text@ == client_name_markup(self.pk_openssh()),
            text@ == "New client with key\n<b>"@ + self.pk_openssh() + "</b>\n"@,
    {
        let mut text: String = "New client with key\n<b>".to_owned();
        text.append(&self.req.pk_openssh);
        text.append("</b>\n");
        text
    }

    /// Whether the button for saving can be clicked.
    pub fn can_save(&self) -> (can: bool)
        ensures
            can == self@.can_save(),
            can == (self@.name.len() > 0),
    {
        self.name.as_str().unicode_len() > 0
    }

    /// The user does something: the answer, where it is given now, and what becomes of the window.
    pub fn handle(&mut self, event: ClientNameEvent) -> (done: (
        Option<ReplyClientName>,
        WindowAction,
    ))
        requires
            old(self)@.can_happen(event@),
        ensures
            (ClientNameStep {
                window: final(self)@,
                reply: client_name_reply(done.0),
                action: done.1,
            }) == client_name_step(old(self)@, event@),
            match event {
                ClientNameEvent::Changed(name) => {
                    &&& done.0 is None
                    &&& done.1 == WindowAction::Stay
                    &&& final(self)@.name == name@
                    &&& final(self)@.answered == old(self)@.answered
                },
                ClientNameEvent::Save => {
                    &&& done.0 matches Some(ReplyClientName { name: Some(name) })
                    &&& name@ == old(self)@.name
                    &&& name@.len() > 0
                    &&& done.1 == WindowAction::Close
                    &&& final(self)@.name == old(self)@.name
                    &&& final(self)@.answered
                },
                ClientNameEvent::CloseRequest => {
                    &&& done.0 is None <==> old(self)@.answered
                    &&& done.0 matches Some(reply) ==> reply.name is None
                    &&& done.1 == WindowAction::Hide
                    &&& final(self)@.name == old(self)@.name
                    &&& final(self)@.answered
                },
            },
            final(self).pk_openssh() == old(self).pk_openssh(),
    {
        match event {
            ClientNameEvent::Changed(name) => {
                self.name = name;
                (None, WindowAction::Stay)
            },
            ClientNameEvent::Save => {
                self.answered = true;
                (Some(ReplyClientName { name: Some(self.name.clone()) }), WindowAction::Close)
            },
            ClientNameEvent::CloseRequest => {
                let first: bool = !self.answered;
                self.answered = true;
                if first {
                    (Some(ReplyClientName { name: None }), WindowAction::Hide)
                } else {
                    (None, WindowAction::Hide)
                }
            },
        }
    }
}

} // verus!
