//! Properties of the screen state machine that span several key presses.
use vstd::prelude::*;

use crate::app::edit::{
    detail_saved, draft_typed, next_field, prev_field, EditField,
};
use crate::app::event::{KeyCode, KeyEvent};
use crate::app::state::{
    enter_in_range, error_reported, index_down, is_save_key, is_text_key, ticket_saved, index_up, initial_state, is_quit_key, key_step, navigated,
    selection_in_bounds, tickets_loaded, AppStateView, CommandView, ScreenView,
};
use crate::github::models::{detail_of_ticket, TicketView};

verus! {

/// A freshly started application has its selection in bounds.
pub proof fn law_initial_selection_in_bounds()
    ensures
        selection_in_bounds(initial_state()),
{
}

/// Every key press (as `AppState::handle_key` handles it, see `key_step`)
/// keeps the selection on an entry of the list on display (or at the top
/// of an empty list), and a selection so kept always lets Enter be handled.
pub proof fn law_key_keeps_selection_in_bounds(s: AppStateView, key: KeyEvent, next: KeyEvent)
    requires
        selection_in_bounds(s),
    ensures
        selection_in_bounds(key_step(s, key).0),
        enter_in_range(key_step(s, key).0, next),
{
}

/// Once marked for exit the application stays so; Ctrl+C marks it on every
/// screen and `q` on every screen but the edit screen.
pub proof fn law_quit_is_kept(s: AppStateView, key: KeyEvent)
    ensures
        (s.should_quit || is_quit_key(s, key)) ==> key_step(s, key).0.should_quit,
{
}

/// A step down followed by a step up returns to the same entry, unless the
/// selection was already on the last.
pub proof fn law_down_then_up(i: nat, max: nat)
    requires
        i + 1 < max,
    ensures
        index_up(index_down(i, max)) == i,
{
}

/// A step down never leaves a list of `max` entries, and a step up never
/// moves past the first.
pub proof fn law_steps_stay_in_list(i: nat, max: nat)
    ensures
        i < max ==> index_down(i, max) < max,
        index_up(i) <= i,
        index_down(i, max) >= i,
{
}

/// On a ticket's details, `e` then Esc returns to those details with the
/// selection at the top, no draft, and nothing else changed.
pub proof fn law_edit_then_cancel(s: AppStateView, e: KeyEvent, esc: KeyEvent)
    requires
        s.screen is TicketDetail,
        s.selected_ticket matches Some(t) && s.screen matches ScreenView::TicketDetail { item_id, .. } && t.id == item_id,
        e.code == KeyCode::Char('e'),
        esc.code == KeyCode::Esc,
    ensures
        key_step(key_step(s, e).0, esc) == (
            navigated(AppStateView { edit: None, ..s }, s.screen),
            CommandView::Idle,
        ),
{
}

/// On a ticket list, Enter then Esc comes back to the same list with the
/// selection at the top, the chosen entry kept as the selected ticket.
pub proof fn law_open_then_back(s: AppStateView, enter: KeyEvent, esc: KeyEvent)
    requires
        s.screen is TicketList,
        s.tickets.len() > 0,
        selection_in_bounds(s),
        enter.code == KeyCode::Enter,
        esc.code == KeyCode::Esc,
    ensures
        ({
            let back = key_step(key_step(s, enter).0, esc).0;
            &&& back.screen == s.screen
            &&& back.selected_index == 0
            &&& back.selected_ticket == Some(detail_of_ticket(s.tickets[s.selected_index as int]))
            &&& back.tickets == s.tickets
        }),
{
}

/// Choosing a project asks for its items and shows its (still loading)
/// list; whatever the load then reports, the selection stays in bounds.
pub proof fn law_open_project_loads_it(
    s: AppStateView,
    enter: KeyEvent,
    loaded: Seq<TicketView>,
    msg: Seq<char>,
)
    requires
        s.screen is ProjectSelector,
        s.projects.len() > 0,
        selection_in_bounds(s),
        enter.code == KeyCode::Enter,
    ensures
        ({
            let (next, cmd) = key_step(s, enter);
            let id = s.projects[s.selected_index as int].id;
            &&& cmd == CommandView::LoadTickets { project_id: id }
            &&& next.screen == ScreenView::TicketList { project_id: id }
            &&& next.loading
            &&& selection_in_bounds(tickets_loaded(next, loaded))
            &&& selection_in_bounds(error_reported(next, msg))
        }),
{
}

/// Tab visits the title, the description and the status in turn and comes
/// back; Shift+Tab undoes Tab and Tab undoes Shift+Tab.
pub proof fn law_focus_cycles(f: EditField)
    ensures
        next_field(next_field(next_field(f))) == f,
        prev_field(next_field(f)) == f,
        next_field(prev_field(f)) == f,
        next_field(f) != f,
{
}

/// On the edit screen with a draft, Tab then Shift+Tab leaves the state as
/// it was.
pub proof fn law_tab_then_back_tab(s: AppStateView, tab: KeyEvent, back: KeyEvent)
    requires
        s.screen is TicketEdit,
        s.edit is Some,
        tab.code == KeyCode::Tab,
        back.code == KeyCode::BackTab,
    ensures
        key_step(key_step(s, tab).0, back) == (s, CommandView::Idle),
{
    assert(key_step(key_step(s, tab).0, back).0.edit->0 =~= s.edit->0);
}

/// What is typed is what is saved: a character typed on the edit screen and
/// then Ctrl+S ask to save the draft with that character added to the field
/// in focus, for the ticket the screen edits.
pub proof fn law_typed_text_is_saved(s: AppStateView, typed: KeyEvent, save: KeyEvent)
    requires
        s.screen is TicketEdit,
        s.edit is Some,
        is_text_key(typed),
        is_save_key(save),
    ensures
        ({
            let d = draft_typed(s.edit->0, typed.code->Char_0);
            let cmd = key_step(key_step(s, typed).0, save).1;
            match s.screen {
                ScreenView::TicketEdit { project_id, item_id } => cmd == CommandView::SaveTicket {
                    project_id: project_id,
                    item_id: item_id,
                    title: d.title,
                    body: d.body,
                    status: d.status,
                },
                _ => false,
            }
        }),
{
}

/// After Ctrl+S, once the save succeeds, the ticket's details come back
/// showing the saved texts, and the selection stays in bounds.
pub proof fn law_saved_draft_is_shown(s: AppStateView, save: KeyEvent)
    requires
        s.screen is TicketEdit,
        s.edit is Some,
        s.selected_ticket is Some,
        is_save_key(save),
    ensures
        ({
            let after = ticket_saved(key_step(s, save).0);
            &&& after.screen matches ScreenView::TicketDetail { item_id, .. } && s.screen
                matches ScreenView::TicketEdit { item_id: edited, .. } && item_id == edited
            &&& after.selected_ticket == Some(detail_saved(s.selected_ticket->0, s.edit->0))
            &&& after.edit is None
            &&& !after.loading
            &&& selection_in_bounds(after)
        }),
{
}

/// On the edit screen `q` is typed into the draft like any letter and
/// does not end the application.
pub proof fn law_q_is_typed_while_editing(s: AppStateView, q: KeyEvent)
    requires
        s.screen is TicketEdit,
        s.edit is Some,
        !s.should_quit,
        q.code == KeyCode::Char('q'),
        !crate::app::event::has_control(q.modifiers),
    ensures
        !key_step(s, q).0.should_quit,
        key_step(s, q).0.edit == Some(draft_typed(s.edit->0, 'q')),
{
}

/// Whatever a key press asks for, and whatever its outcome, the selection
/// stays in bounds: a load asked for by the key, a save, or an error.
pub proof fn law_outcomes_keep_selection_in_bounds(
    s: AppStateView,
    key: KeyEvent,
    loaded: Seq<TicketView>,
    msg: Seq<char>,
)
    requires
        selection_in_bounds(s),
    ensures
        ({
            let (next, cmd) = key_step(s, key);
            &&& selection_in_bounds(next)
            &&& cmd is LoadTickets ==> selection_in_bounds(tickets_loaded(next, loaded))
            &&& selection_in_bounds(ticket_saved(next))
            &&& selection_in_bounds(error_reported(next, msg))
        }),
{
}

} // verus!
