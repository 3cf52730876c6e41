//! What each key does on each screen, and what each reported outcome does
//! to the state, stated field by field.
use vstd::prelude::*;

use crate::app::edit::{EditDraftView, EditField};
use crate::app::event::{has_control, KeyCode, KeyEvent};
use crate::app::state::{
    error_reported, key_step, projects_loaded, ticket_saved, tickets_loaded, AppStateView,
    CommandView, ScreenView,
};
use crate::github::models::{ProjectView, TicketView};

verus! {

/// No key changes the projects, the tickets or the error on display.
pub proof fn law_keys_keep_lists_and_error(s: AppStateView, key: KeyEvent)
    ensures
        key_step(s, key).0.projects == s.projects,
        key_step(s, key).0.tickets == s.tickets,
        key_step(s, key).0.error == s.error,
{
}

/// On the project list and the ticket list, `j` and the Down arrow move the
/// selection one entry down and `k` and the Up arrow one entry up, staying
/// on the list; nothing else changes and nothing is asked of the caller.
pub proof fn law_list_navigation(s: AppStateView, key: KeyEvent)
    requires
        s.screen is ProjectSelector || s.screen is TicketList,
    ensures
        ({
            let n = if s.screen is ProjectSelector {
                s.projects.len()
            } else {
                s.tickets.len()
            };
            let (next, cmd) = key_step(s, key);
            &&& (key.code == KeyCode::Char('j') || key.code == KeyCode::Down) ==> {
                &&& cmd == CommandView::Idle
                &&& s.selected_index + 1 < n ==> next == AppStateView {
                    selected_index: (s.selected_index + 1) as nat,
                    ..s
                }
                &&& s.selected_index + 1 >= n ==> next == s
            }
            &&& (key.code == KeyCode::Char('k') || key.code == KeyCode::Up) ==> {
                &&& cmd == CommandView::Idle
                &&& s.selected_index > 0 ==> next == AppStateView {
                    selected_index: (s.selected_index - 1) as nat,
                    ..s
                }
                &&& s.selected_index == 0 ==> next == s
            }
        }),
{
}

/// Enter on the project list opens the selected project: its ticket list
/// is shown, loading, with the selection at the top, and its items are
/// asked for. With no project, nothing happens.
pub proof fn law_enter_opens_project(s: AppStateView, key: KeyEvent)
    requires
        s.screen is ProjectSelector,
        key.code == KeyCode::Enter,
        s.projects.len() == 0 || s.selected_index < s.projects.len(),
    ensures
        ({
            let (next, cmd) = key_step(s, key);
            &&& s.projects.len() == 0 ==> next == s && cmd == CommandView::Idle
            &&& s.projects.len() > 0 ==> {
                let p: ProjectView = s.projects[s.selected_index as int];
                &&& cmd == CommandView::LoadTickets { project_id: p.id }
                &&& next.screen == ScreenView::TicketList { project_id: p.id }
                &&& next.selected_index == 0
                &&& next.loading
                &&& next.tickets == s.tickets
                &&& next.selected_ticket == s.selected_ticket
                &&& next.should_quit == s.should_quit
            }
        }),
{
}

/// Enter on a ticket list opens the selected ticket: its details are shown
/// with the ticket's own fields, no description and no address yet; with
/// no ticket, nothing happens.
pub proof fn law_enter_opens_ticket(s: AppStateView, key: KeyEvent, p: Seq<char>)
    requires
        s.screen == (ScreenView::TicketList { project_id: p }),
        key.code == KeyCode::Enter,
        s.tickets.len() == 0 || s.selected_index < s.tickets.len(),
    ensures
        ({
            let (next, cmd) = key_step(s, key);
            &&& cmd == CommandView::Idle
            &&& s.tickets.len() == 0 ==> next == s
            &&& s.tickets.len() > 0 ==> {
                let t: TicketView = s.tickets[s.selected_index as int];
                &&& next.screen == ScreenView::TicketDetail { project_id: p, item_id: t.id }
                &&& next.selected_index == 0
                &&& next.selected_ticket matches Some(d) && d.id == t.id && d.title == t.title
                    && d.number == t.number && d.body is None && d.status == t.status
                    && d.repository == t.repository && d.state == t.state && d.url.len() == 0
                &&& next.loading == s.loading
                &&& next.should_quit == s.should_quit
                &&& next.edit == s.edit
            }
        }),
{
}

/// Esc goes back one screen: from a ticket list to the project list, and
/// from a ticket's details to its project's ticket list, the selection at
/// the top.
pub proof fn law_escape_goes_back(s: AppStateView, key: KeyEvent)
    requires
        key.code == KeyCode::Esc,
    ensures
        ({
            let (next, cmd) = key_step(s, key);
            &&& s.screen is TicketList ==> cmd == CommandView::Idle && next == AppStateView {
                screen: ScreenView::ProjectSelector,
                selected_index: 0,
                ..s
            }
            &&& s.screen matches ScreenView::TicketDetail { project_id, .. } ==> cmd
                == CommandView::Idle && next == AppStateView {
                screen: ScreenView::TicketList { project_id: project_id },
                selected_index: 0,
                ..s
            }
            &&& s.screen is ProjectSelector ==> next == s && cmd == CommandView::Idle
        }),
{
}

/// Starting to edit a ticket and saving at once asks to save exactly the
/// ticket's title, description and status (empty where it has none).
pub proof fn law_edit_starts_from_ticket(
    s: AppStateView,
    e: KeyEvent,
    save: KeyEvent,
    p: Seq<char>,
    i: Seq<char>,
)
    requires
        s.screen == (ScreenView::TicketDetail { project_id: p, item_id: i }),
        s.selected_ticket is Some,
        e.code == KeyCode::Char('e'),
        save.code == KeyCode::Char('s'),
        has_control(save.modifiers),
    ensures
        ({
            let t = s.selected_ticket->0;
            let editing = key_step(s, e).0;
            &&& editing.screen == ScreenView::TicketEdit { project_id: p, item_id: i }
            &&& editing.edit matches Some(d) && d.field == EditField::Title && d.title == t.title
                && d.body == match t.body {
                Some(b) => b,
                None => Seq::empty(),
            } && d.status == match t.status {
                Some(x) => x,
                None => Seq::empty(),
            }
            &&& key_step(editing, save).1 == CommandView::SaveTicket {
                project_id: p,
                item_id: i,
                title: t.title,
                body: match t.body {
                    Some(b) => b,
                    None => Seq::empty(),
                },
                status: match t.status {
                    Some(x) => x,
                    None => Seq::empty(),
                },
            }
        }),
{
}

/// On the edit screen, Tab moves the focus from the title to the
/// description, to the status, and back to the title; Shift+Tab the other
/// way; the texts stay as they were.
pub proof fn law_tab_moves_focus(s: AppStateView, key: KeyEvent, d: EditDraftView)
    requires
        s.screen is TicketEdit,
        s.edit == Some(d),
        key.code == KeyCode::Tab || key.code == KeyCode::BackTab,
    ensures
        ({
            let (next, cmd) = key_step(s, key);
            let f = if key.code == KeyCode::Tab {
                match d.field {
                    EditField::Title => EditField::Body,
                    EditField::Body => EditField::Status,
                    EditField::Status => EditField::Title,
                }
            } else {
                match d.field {
                    EditField::Title => EditField::Status,
                    EditField::Body => EditField::Title,
                    EditField::Status => EditField::Body,
                }
            };
            &&& cmd == CommandView::Idle
            &&& next == AppStateView { edit: Some(EditDraftView { field: f, ..d }), ..s }
        }),
{
}

/// On the edit screen, a character typed without Control is added to the
/// end of the field in focus, and Backspace removes that field's last
/// character; the other fields and the focus stay as they were.
pub proof fn law_typing_changes_focused_field(s: AppStateView, key: KeyEvent, d: EditDraftView)
    requires
        s.screen is TicketEdit,
        s.edit == Some(d),
        (key.code is Char && !has_control(key.modifiers)) || key.code == KeyCode::Backspace,
    ensures
        ({
            let (next, cmd) = key_step(s, key);
            let change = |t: Seq<char>|
                if key.code is Char {
                    t.push(key.code->Char_0)
                } else if t.len() > 0 {
                    t.drop_last()
                } else {
                    t
                };
            &&& cmd == CommandView::Idle
            &&& next.should_quit == s.should_quit
            &&& next.edit matches Some(d2) && d2.field == d.field && d2.title == (
                if d.field == EditField::Title {
                    change(d.title)
                } else {
                    d.title
                }) && d2.body == (if d.field == EditField::Body {
                change(d.body)
            } else {
                d.body
            }) && d2.status == (if d.field == EditField::Status {
                change(d.status)
            } else {
                d.status
            })
            &&& next.screen == s.screen
            &&& next.selected_ticket == s.selected_ticket
        }),
{
}

/// Esc on the edit screen drops the draft and shows the ticket's details
/// again, unchanged.
pub proof fn law_escape_cancels_edit(s: AppStateView, key: KeyEvent, p: Seq<char>, i: Seq<char>)
    requires
        s.screen == (ScreenView::TicketEdit { project_id: p, item_id: i }),
        s.selected_ticket is Some,
        key.code == KeyCode::Esc,
    ensures
        ({
            let (next, cmd) = key_step(s, key);
            &&& cmd == CommandView::Idle
            &&& next.edit is None
            &&& next.screen == ScreenView::TicketDetail {
                project_id: p,
                item_id: s.selected_ticket->0.id,
            }
            &&& next.selected_ticket == s.selected_ticket
        }),
{
}

/// Loaded tickets replace the list on display, whatever it held; loading
/// stops and nothing else changes.
pub proof fn law_loaded_tickets_replace(s: AppStateView, ts: Seq<TicketView>)
    ensures
        tickets_loaded(s, ts).tickets == ts,
        !tickets_loaded(s, ts).loading,
        tickets_loaded(s, ts) == (AppStateView {
            tickets: ts,
            loading: false,
            ..s
        }),
        tickets_loaded(tickets_loaded(s, s.tickets + ts), ts).tickets == ts,
{
}

/// Loaded projects replace the list on display, whatever it held; loading
/// stops and nothing else changes.
pub proof fn law_loaded_projects_replace(s: AppStateView, ps: Seq<ProjectView>)
    ensures
        projects_loaded(s, ps).projects == ps,
        projects_loaded(s, ps) == (AppStateView { projects: ps, loading: false, ..s }),
{
}

/// A reported error is shown and stops loading; nothing else changes.
pub proof fn law_error_is_shown(s: AppStateView, msg: Seq<char>)
    ensures
        error_reported(s, msg) == (AppStateView { error: Some(msg), loading: false, ..s }),
{
}

/// A successful save gives the selected ticket the draft's title, and its
/// description and status (none where the draft's is empty), keeps its
/// other fields, drops the draft, stops loading and shows its details.
pub proof fn law_save_updates_ticket(s: AppStateView, p: Seq<char>, i: Seq<char>)
    requires
        s.screen == (ScreenView::TicketEdit { project_id: p, item_id: i }),
        s.edit is Some,
        s.selected_ticket is Some,
    ensures
        ({
            let d = s.edit->0;
            let t = s.selected_ticket->0;
            let after = ticket_saved(s);
            &&& after.screen == ScreenView::TicketDetail { project_id: p, item_id: i }
            &&& after.edit is None
            &&& !after.loading
            &&& after.tickets == s.tickets
            &&& after.selected_ticket matches Some(u) && u.title == d.title && u.id == t.id
                && u.number == t.number && u.repository == t.repository && u.state == t.state
                && u.url == t.url && (d.body.len() == 0 ==> u.body is None) && (d.body.len() > 0
                ==> u.body == Some(d.body)) && (d.status.len() == 0 ==> u.status is None) && (
            d.status.len() > 0 ==> u.status == Some(d.status))
        }),
{
}

} // verus!
