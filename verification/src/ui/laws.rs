//! What each screen shows, column by column, for every state.
use vstd::prelude::*;

use crate::app::state::AppStateView;
use crate::text::decimal_text;
use crate::ui::view::{
    detail_fields_ok, draft_fields_ok, selector_body_ok, table_body_ok, DetailFields, ListBody,
    TableBody,
};

verus! {

/// The ticket table: a notice while loading or for an empty list; else one
/// row per ticket, in order, showing its number, title, status (`None`
/// when unset), state and repository (`Unknown` when unset), the selected
/// one marked.
pub proof fn law_ticket_rows(b: TableBody, s: AppStateView)
    requires
        table_body_ok(b, s),
    ensures
        s.loading ==> (b matches TableBody::Message(m) && m@ == "Loading tickets..."@),
        !s.loading && s.tickets.len() == 0 ==> (b matches TableBody::Message(m) && m@
            == "No tickets found in this project."@),
        !s.loading && s.tickets.len() > 0 ==> (b matches TableBody::Rows(rows) && rows@.len()
            == s.tickets.len() && forall|i: int|
            0 <= i < rows@.len() ==> {
                let t = s.tickets[i];
                let r = #[trigger] rows@[i];
                &&& r.number@ == decimal_text(t.number)
                &&& r.title@ == t.title
                &&& r.state@ == t.state
                &&& (t.status matches Some(x) ==> r.status@ == x)
                &&& (t.status is None ==> r.status@ == "None"@)
                &&& (t.repository matches Some(x) ==> r.repository@ == x)
                &&& (t.repository is None ==> r.repository@ == "Unknown"@)
                &&& r.selected == (i == s.selected_index)
            }),
{
}

/// The project list: a notice while loading or when there is no project;
/// else one line per project, in order, `#<number> - <title>`, the
/// selected one marked.
pub proof fn law_project_rows(b: ListBody, s: AppStateView)
    requires
        selector_body_ok(b, s),
    ensures
        s.loading ==> (b matches ListBody::Message(m) && m@ == "Loading projects..."@),
        !s.loading && s.projects.len() > 0 ==> (b matches ListBody::Rows(rows) && rows@.len()
            == s.projects.len() && forall|i: int|
            0 <= i < rows@.len() ==> {
                let p = s.projects[i];
                let r = #[trigger] rows@[i];
                &&& r.text@ == "#"@ + decimal_text(p.number) + " - "@ + p.title
                &&& r.selected == (i == s.selected_index)
            }),
{
}

/// A ticket's details show `#<number> | State: <state>`, its title, its
/// status (`None` when unset) and its description (`No description` when
/// there is none); while editing, the draft's texts as typed.
pub proof fn law_detail_fields(f: DetailFields, s: AppStateView, editing: bool)
    requires
        s.selected_ticket is Some,
        if editing && s.edit is Some {
            draft_fields_ok(f, s.selected_ticket->0, s.edit->0)
        } else {
            detail_fields_ok(f, s.selected_ticket->0)
        },
    ensures
        ({
            let t = s.selected_ticket->0;
            &&& f.info@ == "#"@ + decimal_text(t.number) + " | State: "@ + t.state
            &&& (editing && s.edit is Some) ==> f.title@ == s.edit->0.title && f.status@
                == s.edit->0.status && f.body@ == s.edit->0.body
            &&& !(editing && s.edit is Some) ==> {
                &&& f.title@ == t.title
                &&& (t.status matches Some(x) ==> f.status@ == x)
                &&& (t.status is None ==> f.status@ == "None"@)
                &&& (t.body matches Some(x) ==> f.body@ == x)
                &&& (t.body is None ==> f.body@ == "No description"@)
            }
        }),
{
}

} // verus!
