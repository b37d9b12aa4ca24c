//! What holds of the windows as a whole.

use super::messages::{ReplyClientName, ReplyPermission};
use super::{ClientNameEvent, ClientNameEventView, ClientNameView, PermissionEvent, WindowAction};
use crate::model::Permission;
use crate::rules::laws;
use crate::rules::policy;
use crate::rules::policy::{Access, Clients, ExecView, RulesActionView, WaitingView};
use crate::ui;
use vstd::prelude::*;

verus! {

/// The answers that a window gives over a sequence of events, where `answered` says whether it
/// has given one before.
pub open spec fn permission_answers(
    answered: bool,
    events: Seq<PermissionEvent>,
) -> Seq<ReplyPermission>
    decreases events.len(),
{
    if events.len() == 0 {
        seq![]
    } else {
        let rest = permission_answers(true, events.drop_first());
        match ui::permission_step(answered, events[0]).0 {
            Some(reply) => seq![reply] + rest,
            None => rest,
        }
    }
}

/// A window that has answered gives no answer again.
proof fn lemma_permission_answered_once(events: Seq<PermissionEvent>)
    ensures
        permission_answers(true, events) == Seq::<ReplyPermission>::empty(),
    decreases events.len(),
{
    if events.len() > 0 {
        lemma_permission_answered_once(events.drop_first());
    }
}

/// A window that asks for a permission gives one answer, whatever the user does: that of the
/// first event.
pub proof fn law_permission_is_answered_once(events: Seq<PermissionEvent>)
    requires
        events.len() > 0,
    ensures
        permission_answers(false, events) == seq![
            match events[0] {
                PermissionEvent::AllowAlways => ReplyPermission {
                    now: true,
                    future: Permission::Yes,
                },
                PermissionEvent::AllowOnce => ReplyPermission {
                    now: true,
                    future: Permission::Ask,
                },
                PermissionEvent::DenyAlways => ReplyPermission {
                    now: false,
                    future: Permission::No,
                },
                PermissionEvent::CloseRequest => ReplyPermission {
                    now: false,
                    future: Permission::Ask,
                },
            },
        ],
{
    lemma_permission_answered_once(events.drop_first());
    assert(permission_answers(false, events) =~= seq![ui::permission_reply(events[0])]);
}

/// The window that asks for a client's name, after a sequence of events.
pub open spec fn client_name_window(events: Seq<ClientNameEventView>) -> ClientNameView
    decreases events.len(),
{
    if events.len() == 0 {
        ClientNameView::opened()
    } else {
        ui::client_name_step(client_name_window(events.drop_last()), events.last()).window
    }
}

/// Whether a sequence of events can happen in the window that asks for a client's name.
pub open spec fn client_name_can_happen(events: Seq<ClientNameEventView>) -> bool
    decreases events.len(),
{
    events.len() == 0 || client_name_can_happen(events.drop_last()) && client_name_window(
        events.drop_last(),
    ).can_happen(events.last())
}

/// The answers that the window that asks for a client's name gives over a sequence of events.
pub open spec fn client_name_answers(events: Seq<ClientNameEventView>) -> Seq<Option<Seq<char>>>
    decreases events.len(),
{
    if events.len() == 0 {
        seq![]
    } else {
        let before = client_name_answers(events.drop_last());
        match ui::client_name_step(client_name_window(events.drop_last()), events.last()).reply {
            Some(reply) => before.push(reply),
            None => before,
        }
    }
}

/// What is typed in after a sequence of events.
pub open spec fn typed(events: Seq<ClientNameEventView>) -> Seq<char>
    decreases events.len(),
{
    if events.len() == 0 {
        Seq::empty()
    } else {
        match events.last() {
            ClientNameEventView::Changed(name) => name,
            _ => typed(events.drop_last()),
        }
    }
}

/// The button for saving can be clicked exactly while the text that is typed in is not empty; at
/// first none is.
pub proof fn law_save_button_follows_the_text(events: Seq<ClientNameEventView>)
    ensures
        client_name_window(events).name == typed(events),
        client_name_window(events).can_save() == (typed(events).len() > 0),
        !ClientNameView::opened().can_save(),
    decreases events.len(),
{
    if events.len() > 0 {
        law_save_button_follows_the_text(events.drop_last());
    }
}

/// A name that is saved is not empty, whatever the user does.
pub proof fn law_saved_name_is_not_empty(events: Seq<ClientNameEventView>)
    requires
        client_name_can_happen(events),
    ensures
        forall|i: int|
            0 <= i < client_name_answers(events).len() ==> match #[trigger] client_name_answers(
                events,
            )[i] {
                Some(name) => name.len() > 0,
                None => true,
            },
    decreases events.len(),
{
    if events.len() > 0 {
        law_saved_name_is_not_empty(events.drop_last());
    }
}

/// A window in which only was typed has given no answer.
proof fn lemma_only_typed(events: Seq<ClientNameEventView>)
    requires
        forall|i: int| 0 <= i < events.len() ==> #[trigger] events[i] is Changed,
    ensures
        !client_name_window(events).answered,
        client_name_answers(events).len() == 0,
    decreases events.len(),
{
    if events.len() > 0 {
        let before = events.drop_last();
        assert forall|i: int| 0 <= i < before.len() implies #[trigger] before[i] is Changed by {
            assert(events[i] is Changed);
        }
        lemma_only_typed(before);
        assert(events[events.len() - 1] is Changed);
    }
}

/// A window that asks for a client's name gives one answer, whatever the user does: that of the
/// first event, at position `first`, that is more than typing. It is the text that is typed in
/// then where the user saves it, and no name where the window is closed. As long as the user only
/// types there is no answer.
pub proof fn law_client_name_is_answered_once(events: Seq<ClientNameEventView>, first: int)
    requires
        0 <= first <= events.len(),
        forall|i: int| 0 <= i < first ==> #[trigger] events[i] is Changed,
        first < events.len() ==> events[first] !is Changed,
    ensures
        client_name_answers(events) == if first == events.len() {
            seq![]
        } else if events[first] is Save {
            seq![Some(typed(events.take(first)))]
        } else {
            seq![None]
        },
        client_name_window(events).answered == (first < events.len()),
    decreases events.len(),
{
    if first == events.len() {
        lemma_only_typed(events);
    } else {
        let before = events.drop_last();
        assert forall|i: int| 0 <= i < first implies #[trigger] before[i] is Changed by {
            assert(events[i] is Changed);
        }
        if first < before.len() {
            assert(before[first] == events[first]);
        }
        law_client_name_is_answered_once(before, first);
        assert(before.take(first) =~= events.take(first));
        if first == before.len() {
            assert(before =~= events.take(first));
            law_save_button_follows_the_text(before);
        }
    }
}

/// The buttons do what they say. The request is approved now exactly on "allow always" and "allow
/// once". A later request for the same access is approved without asking after "allow always",
/// refused without asking after "deny always", and asked about after "allow once" and after the
/// window was closed.
pub proof fn law_buttons_do_what_they_say(
    clients: Clients,
    pk: Seq<char>,
    addr: Seq<char>,
    path: Seq<char>,
    access: Access,
    updated: bool,
    event: PermissionEvent,
    later: ExecView,
    words: Option<Seq<Seq<char>>>,
)
    requires
        policy::coherent(
            clients,
            WaitingView::Permission { pk_openssh: pk, server_addr: addr, path, access, updated },
        ),
        later.pk_openssh == pk,
        later.server_addr == addr,
        laws::asks_for(later, words, access, path),
    ensures
        ({
            let reply = ui::permission_reply(event);
            let now = policy::on_permission(
                clients,
                pk,
                addr,
                path,
                access,
                updated,
                reply.now,
                reply.future,
            );
            let then = policy::on_request(now.clients, later, words).action;
            &&& now.action matches RulesActionView::Reply { result, .. } && (result is Ok) == (event
                is AllowAlways || event is AllowOnce)
            &&& match event {
                PermissionEvent::AllowAlways => then == RulesActionView::Reply {
                    result: laws::decided_verdict(access, Permission::Yes),
                    save: false,
                },
                PermissionEvent::DenyAlways => then == RulesActionView::Reply {
                    result: laws::decided_verdict(access, Permission::No),
                    save: false,
                },
                _ => then == RulesActionView::AskPermission {
                    pk_openssh: pk,
                    action: match access {
                        Access::Read => "read from "@ + path,
                        Access::Write => "write to "@ + path,
                    },
                },
            }
        }),
{
    let reply = ui::permission_reply(event);
    match event {
        PermissionEvent::AllowAlways | PermissionEvent::DenyAlways => {
            laws::law_decision_is_remembered(
                clients,
                pk,
                addr,
                path,
                access,
                updated,
                reply.now,
                reply.future,
                later,
                words,
            );
        },
        _ => {
            laws::law_once_asks_again(
                clients,
                pk,
                addr,
                path,
                access,
                updated,
                reply.now,
                later,
                words,
            );
        },
    }
}

/// A button closes the window, and the request to close hides it; no answer is given twice, and none
/// is left out.
pub proof fn law_permission_window_goes_away(answered: bool, event: PermissionEvent)
    ensures
        (ui::permission_step(answered, event).0 is None) == answered,
        (ui::permission_step(answered, event).1 == WindowAction::Hide) == (event is CloseRequest),
        (ui::permission_step(answered, event).1 == WindowAction::Close) == (event !is CloseRequest),
{
}

/// Typing and closing can always happen; saving can happen while a name is typed in and no answer
/// was given. Typing leaves the window as it is but for the name, saving closes it, and the request
/// to close hides it.
pub proof fn law_what_can_happen_to_a_name(window: ClientNameView, event: ClientNameEventView)
    ensures
        window.can_happen(event) <==> event !is Save || (window.name.len() > 0 && !window.answered),
        ({
            let step = ui::client_name_step(window, event);
            &&& (step.action == WindowAction::Stay) == (event is Changed)
            &&& (step.action == WindowAction::Close) == (event is Save)
            &&& (step.action == WindowAction::Hide) == (event is CloseRequest)
            &&& step.window.answered == (window.answered || event !is Changed)
            &&& event matches ClientNameEventView::Changed(name) ==> step.window.name == name
            &&& event !is Changed ==> step.window.name == window.name
        }),
{
}

/// The windows say what they ask: the key of the client, whole, and what it wants to do.
pub proof fn law_windows_show_the_key(pk_openssh: Seq<char>, action: Seq<char>)
    ensures
        ui::permission_markup(pk_openssh, action) == "Allow\n<b>"@ + pk_openssh + "</b>\nto "@
            + action + "?"@,
        ui::client_name_markup(pk_openssh) == "New client with key\n<b>"@ + pk_openssh
            + "</b>\n"@,
{
}

/// An event and an answer about a client's name read, over plain sequences, as what they are.
pub proof fn law_views_of_a_name(event: ClientNameEvent, reply: Option<ReplyClientName>)
    ensures
        match event {
            ClientNameEvent::Changed(name) => event@ == ClientNameEventView::Changed(name@),
            ClientNameEvent::Save => event@ is Save,
            ClientNameEvent::CloseRequest => event@ is CloseRequest,
        },
        ui::client_name_reply(reply) == match reply {
            Some(ReplyClientName { name: Some(name) }) => Some(Some(name@)),
            Some(ReplyClientName { name: None }) => Some(None),
            None => None,
        },
{
}

} // verus!
