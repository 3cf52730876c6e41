//! What each screen shows, as text: the terminal drawing is the caller's.
use vstd::prelude::*;
use vstd::string::*;

use crate::app::edit::{EditDraftView, EditField};
use crate::app::state::{AppState, AppStateView, Screen, ScreenView};
use crate::github::models::{opt_view, ProjectView, TicketDetailView, TicketView};
use crate::text::{decimal, decimal_text};
use ratatui::layout::{Constraint, Layout, Rect};

verus! {

/// Which of the three layouts draws a screen.
#[derive(Clone, Copy, Debug, PartialEq, Eq, Structural)]
pub enum ScreenKind {
    ProjectSelector,
    TicketList,
    /// The ticket's details, to read or to edit.
    TicketDetail,
}

/// The layout of each screen: both the details and their editing share one.
pub open spec fn kind_of(s: ScreenView) -> ScreenKind {
    match s {
        ScreenView::ProjectSelector => ScreenKind::ProjectSelector,
        ScreenView::TicketList { .. } => ScreenKind::TicketList,
        ScreenView::TicketDetail { .. } => ScreenKind::TicketDetail,
        ScreenView::TicketEdit { .. } => ScreenKind::TicketDetail,
    }
}

/// The layout that draws `screen`.
pub fn screen_kind(screen: &Screen) -> (k: ScreenKind)
    ensures
        k == kind_of(screen@),
{
    match screen {
        Screen::ProjectSelector => ScreenKind::ProjectSelector,
        Screen::TicketList { .. } => ScreenKind::TicketList,
        Screen::TicketDetail { .. } => ScreenKind::TicketDetail,
        Screen::TicketEdit { .. } => ScreenKind::TicketDetail,
    }
}

/// The text of an optional value, or `fallback` when it is missing.
pub open spec fn text_or(o: Option<Seq<char>>, fallback: Seq<char>) -> Seq<char> {
    match o {
        Some(t) => t,
        None => fallback,
    }
}

fn string_or(o: &Option<String>, fallback: &str) -> (s: String)
    ensures
        s@ == text_or(opt_view(*o), fallback@),
{
    match o {
        Some(t) => t.clone(),
        None => String::from_str(fallback),
    }
}

/// One line of a list, highlighted when selected.
pub struct ListRow {
    pub text: String,
    pub selected: bool,
}

/// The body of the project list: a notice, or one line per project.
pub enum ListBody {
    Message(String),
    Rows(Vec<ListRow>),
}

/// What the project selector shows.
pub struct ProjectSelectorScreen {
    pub title: String,
    pub body: ListBody,
    pub help: String,
    /// An error to show over the rest, in a pop-up.
    pub error: Option<String>,
}

/// The line of a project: `#<number> - <title>`.
pub open spec fn project_line(p: ProjectView) -> Seq<char> {
    "#"@ + decimal_text(p.number) + " - "@ + p.title
}

/// The project selector's body for a state: a notice while loading or when
/// there is no project, else one line per project, the selected one marked.
pub open spec fn selector_body_ok(b: ListBody, s: AppStateView) -> bool {
    if s.loading {
        b matches ListBody::Message(m) && m@ == "Loading projects..."@
    } else if s.projects.len() == 0 {
        b matches ListBody::Message(m) && m@
            == "No projects found.\n\nMake sure you have access to GitHub Projects."@
    } else {
        b matches ListBody::Rows(rows) && rows@.len() == s.projects.len() && forall|i: int|
            0 <= i < rows@.len() ==> #[trigger] rows@[i].text@ == project_line(s.projects[i])
                && rows@[i].selected == (i == s.selected_index)
    }
}

/// What the project selector shows for `state`.
pub fn project_selector_screen(state: &AppState) -> (v: ProjectSelectorScreen)
    ensures
        v.title@ == "GitHub Projects TUI - Select a Project"@,
        v.help@ == "j/k or \u{2193}/\u{2191}: Navigate | Enter: Select | q: Quit"@,
        opt_view(v.error) == state@.error,
        selector_body_ok(v.body, state@),
{
    let body = if state.loading {
        ListBody::Message(String::from_str("Loading projects..."))
    } else if state.projects.len() == 0 {
        ListBody::Message(
            String::from_str("No projects found.\n\nMake sure you have access to GitHub Projects."),
        )
    } else {
        let mut rows: Vec<ListRow> = Vec::new();
        let n = state.projects.len();
        let mut i: usize = 0;
        while i < n
            invariant
                n == state.projects.len(),
                i <= n,
                rows.len() == i,
                forall|j: int|
                    0 <= j < i ==> #[trigger] rows@[j].text@ == project_line(state@.projects[j])
                        && rows@[j].selected == (j == state.selected_index),
            decreases n - i,
        {
            let p = &state.projects[i];
            let text = String::from_str("#").concat(decimal(p.number).as_str()).concat(
                " - ",
            ).concat(p.title.as_str());
            proof {
                reveal_strlit("#");
                reveal_strlit(" - ");
                assert(text@ =~= project_line(state@.projects[i as int]));
            }
            rows.push(ListRow { text, selected: i == state.selected_index });
            i += 1;
        }
        assert(rows@.len() == state@.projects.len());
        ListBody::Rows(rows)
    };
    assert(selector_body_ok(body, state@));
    let error = match &state.error {
        Some(e) => Some(e.clone()),
        None => None,
    };
    ProjectSelectorScreen {
        title: String::from_str("GitHub Projects TUI - Select a Project"),
        body,
        help: String::from_str("j/k or \u{2193}/\u{2191}: Navigate | Enter: Select | q: Quit"),
        error,
    }
}

/// One row of the ticket table, highlighted when selected.
pub struct TicketRow {
    pub number: String,
    pub title: String,
    pub status: String,
    pub state: String,
    pub repository: String,
    pub selected: bool,
}

/// The body of the ticket table: a notice, or one row per ticket.
pub enum TableBody {
    Message(String),
    Rows(Vec<TicketRow>),
}

/// What the ticket list shows.
pub struct TicketListScreen {
    pub title: String,
    pub header: Vec<String>,
    pub body: TableBody,
    pub help: String,
}

/// The row of a ticket: its number, title, status (`None` when unset),
/// state and repository (`Unknown` when unset).
pub open spec fn ticket_row_ok(r: TicketRow, t: TicketView) -> bool {
    &&& r.number@ == decimal_text(t.number)
    &&& r.title@ == t.title
    &&& r.status@ == text_or(t.status, "None"@)
    &&& r.state@ == t.state
    &&& r.repository@ == text_or(t.repository, "Unknown"@)
}

/// The ticket list's body for a state: a notice while loading or when the
/// project has no ticket, else one row per ticket, the selected one marked.
pub open spec fn table_body_ok(b: TableBody, s: AppStateView) -> bool {
    if s.loading {
        b matches TableBody::Message(m) && m@ == "Loading tickets..."@
    } else if s.tickets.len() == 0 {
        b matches TableBody::Message(m) && m@ == "No tickets found in this project."@
    } else {
        b matches TableBody::Rows(rows) && rows@.len() == s.tickets.len() && forall|i: int|
            0 <= i < rows@.len() ==> ticket_row_ok(#[trigger] rows@[i], s.tickets[i])
                && rows@[i].selected == (i == s.selected_index)
    }
}

/// The column titles of the ticket table.
pub open spec fn header_texts() -> Seq<Seq<char>> {
    seq!["#"@, "Title"@, "Status"@, "State"@, "Repository"@]
}

/// What the ticket list shows for `state`.
pub fn ticket_list_screen(state: &AppState) -> (v: TicketListScreen)
    ensures
        v.title@ == "GitHub Projects TUI - Ticket List"@,
        v.header@.map_values(|h: String| h@) == header_texts(),
        v.help@ == "j/k or \u{2193}/\u{2191}: Navigate | Enter: View Details | Esc: Back | q: Quit"@,
        table_body_ok(v.body, state@),
{
    let body = if state.loading {
        TableBody::Message(String::from_str("Loading tickets..."))
    } else if state.tickets.len() == 0 {
        TableBody::Message(String::from_str("No tickets found in this project."))
    } else {
        let mut rows: Vec<TicketRow> = Vec::new();
        let n = state.tickets.len();
        let mut i: usize = 0;
        while i < n
            invariant
                n == state.tickets.len(),
                i <= n,
                rows.len() == i,
                forall|j: int|
                    0 <= j < i ==> ticket_row_ok(#[trigger] rows@[j], state@.tickets[j])
                        && rows@[j].selected == (j == state.selected_index),
            decreases n - i,
        {
            let t = &state.tickets[i];
            let row = TicketRow {
                number: decimal(t.number),
                title: t.title.clone(),
                status: string_or(&t.status, "None"),
                state: t.state.clone(),
                repository: string_or(&t.repository, "Unknown"),
                selected: i == state.selected_index,
            };
            assert(ticket_row_ok(row, state@.tickets[i as int]));
            rows.push(row);
            i += 1;
        }
        TableBody::Rows(rows)
    };
    let mut header: Vec<String> = Vec::new();
    header.push(String::from_str("#"));
    header.push(String::from_str("Title"));
    header.push(String::from_str("Status"));
    header.push(String::from_str("State"));
    header.push(String::from_str("Repository"));
    assert(header@.map_values(|h: String| h@) =~= header_texts());
    TicketListScreen {
        title: String::from_str("GitHub Projects TUI - Ticket List"),
        header,
        body,
        help: String::from_str(
            "j/k or \u{2193}/\u{2191}: Navigate | Enter: View Details | Esc: Back | q: Quit",
        ),
    }
}

/// The fields of a ticket on its details screen.
pub struct DetailFields {
    pub info: String,
    pub title: String,
    pub status: String,
    pub body: String,
}

/// The details screen's content: a notice, or the ticket's fields.
pub enum DetailBody {
    Message(String),
    Fields(DetailFields),
}

/// What the details screen shows; in edit mode the fields are highlighted
/// and show the draft, the field in focus marked.
pub struct TicketDetailScreen {
    pub edit_mode: bool,
    pub focus: Option<EditField>,
    pub title: String,
    pub body: DetailBody,
    pub help: String,
}

/// The fields of a ticket: `#<number> | State: <state>`, the title, the
/// status (`None` when unset) and the description (`No description` when
/// there is none).
pub open spec fn detail_fields_ok(f: DetailFields, t: TicketDetailView) -> bool {
    &&& f.info@ == "#"@ + decimal_text(t.number) + " | State: "@ + t.state
    &&& f.title@ == t.title
    &&& f.status@ == text_or(t.status, "None"@)
    &&& f.body@ == text_or(t.body, "No description"@)
}

/// The fields while editing: the ticket's number and state, then the
/// draft's texts as typed.
pub open spec fn draft_fields_ok(f: DetailFields, t: TicketDetailView, d: EditDraftView) -> bool {
    &&& f.info@ == "#"@ + decimal_text(t.number) + " | State: "@ + t.state
    &&& f.title@ == d.title
    &&& f.status@ == d.status
    &&& f.body@ == d.body
}

/// What the details screen shows for `state`.
pub fn ticket_detail_screen(state: &AppState) -> (v: TicketDetailScreen)
    ensures
        v.edit_mode == (state@.screen is TicketEdit),
        v.title@ == if v.edit_mode {
            "GitHub Projects TUI - Edit Ticket"@
        } else {
            "GitHub Projects TUI - Ticket Details"@
        },
        v.help@ == if v.edit_mode {
            "Tab: Next Field | Ctrl+S: Save | Esc: Cancel"@
        } else {
            "e: Edit | Esc: Back | q: Quit"@
        },
        v.focus == if v.edit_mode && state@.edit is Some {
            Some(state@.edit->0.field)
        } else {
            None
        },
        match state@.selected_ticket {
            Some(t) => v.body matches DetailBody::Fields(f) && if v.edit_mode
                && state@.edit is Some {
                draft_fields_ok(f, t, state@.edit->0)
            } else {
                detail_fields_ok(f, t)
            },
            None => v.body matches DetailBody::Message(m) && m@ == "Loading ticket details..."@,
        },
{
    let edit_mode = match &state.current_screen {
        Screen::TicketEdit { .. } => true,
        _ => false,
    };
    let body = match &state.selected_ticket {
        Some(t) => {
            let info = String::from_str("#").concat(decimal(t.number).as_str()).concat(
                " | State: ",
            ).concat(t.state.as_str());
            proof {
                reveal_strlit("#");
                reveal_strlit(" | State: ");
                assert(info@ =~= "#"@ + decimal_text(t.number as int) + " | State: "@ + t.state@);
            }
            match (&state.edit, edit_mode) {
                (Some(d), true) => DetailBody::Fields(
                    DetailFields {
                        info,
                        title: d.title.clone(),
                        status: d.status.clone(),
                        body: d.body.clone(),
                    },
                ),
                _ => DetailBody::Fields(
                    DetailFields {
                        info,
                        title: t.title.clone(),
                        status: string_or(&t.status, "None"),
                        body: string_or(&t.body, "No description"),
                    },
                ),
            }
        },
        None => DetailBody::Message(String::from_str("Loading ticket details...")),
    };
    let (title, help) = if edit_mode {
        (
            String::from_str("GitHub Projects TUI - Edit Ticket"),
            String::from_str("Tab: Next Field | Ctrl+S: Save | Esc: Cancel"),
        )
    } else {
        (
            String::from_str("GitHub Projects TUI - Ticket Details"),
            String::from_str("e: Edit | Esc: Back | q: Quit"),
        )
    };
    let focus = match (&state.edit, edit_mode) {
        (Some(d), true) => Some(d.field),
        _ => None,
    };
    TicketDetailScreen { edit_mode, focus, title, body, help }
}

/// The three shares (in percent) of a centred pop-up along one axis: equal
/// margins around `percent` for the pop-up itself.
pub open spec fn centered_shares(percent: u16) -> (u16, u16, u16) {
    (((100 - percent) / 2) as u16, percent, ((100 - percent) / 2) as u16)
}

/// The three shares (in percent) of a centred pop-up along one axis (see
/// `centered_shares`).
pub fn centered_split(percent: u16) -> (r: (u16, u16, u16))
    requires
        percent <= 100,
    ensures
        r == centered_shares(percent),
        r.0 == (100 - percent) / 2,
        r.1 == percent,
        r.2 == (100 - percent) / 2,
{
    let margin = (100 - percent) / 2;
    (margin, percent, margin)
}

/// The three areas (x, y, width, height) into which `ratatui`'s vertical
/// layout of three percentage shares cuts `area`.
pub uninterp spec fn vertical_split_of(
    shares: (u16, u16, u16),
    area: (u16, u16, u16, u16),
) -> ((u16, u16, u16, u16), (u16, u16, u16, u16), (u16, u16, u16, u16));

/// The three areas into which `ratatui`'s horizontal layout of three
/// percentage shares cuts `area`.
pub uninterp spec fn horizontal_split_of(
    shares: (u16, u16, u16),
    area: (u16, u16, u16, u16),
) -> ((u16, u16, u16, u16), (u16, u16, u16, u16), (u16, u16, u16, u16));

/// `ratatui::layout::Layout::vertical` with three `Percentage` constraints,
/// then `split`: three areas stacked from top to bottom. The solver's answer
/// depends on the shares and the area alone, so the contract names it.
#[verifier::external_body]
fn vertical_split(shares: (u16, u16, u16), area: (u16, u16, u16, u16)) -> (r: (
    (u16, u16, u16, u16),
    (u16, u16, u16, u16),
    (u16, u16, u16, u16),
))
    ensures
        r == vertical_split_of(shares, area),
{
    let c = Layout::vertical([Constraint::Percentage(shares.0), Constraint::Percentage(shares.1), Constraint::Percentage(shares.2)])
        .split(Rect::new(area.0, area.1, area.2, area.3));
    ((c[0].x, c[0].y, c[0].width, c[0].height), (c[1].x, c[1].y, c[1].width, c[1].height), (
        c[2].x, c[2].y, c[2].width, c[2].height))
}

/// `ratatui::layout::Layout::horizontal` with three `Percentage`
/// constraints, then `split`: three areas side by side from left to right.
/// The solver's answer depends on the shares and the area alone, so the
/// contract names it.
#[verifier::external_body]
fn horizontal_split(shares: (u16, u16, u16), area: (u16, u16, u16, u16)) -> (r: (
    (u16, u16, u16, u16),
    (u16, u16, u16, u16),
    (u16, u16, u16, u16),
))
    ensures
        r == horizontal_split_of(shares, area),
{
    let c = Layout::horizontal([Constraint::Percentage(shares.0), Constraint::Percentage(shares.1), Constraint::Percentage(shares.2)])
        .split(Rect::new(area.0, area.1, area.2, area.3));
    ((c[0].x, c[0].y, c[0].width, c[0].height), (c[1].x, c[1].y, c[1].width, c[1].height), (
        c[2].x, c[2].y, c[2].width, c[2].height))
}

/// The area (x, y, width, height) of a pop-up centred in `area` that takes
/// `percent_x` of its width and `percent_y` of its height: the middle row
/// of the vertical split, then the middle column of that row.
pub fn centered_rect(percent_x: u16, percent_y: u16, area: (u16, u16, u16, u16)) -> (c: (
    u16,
    u16,
    u16,
    u16,
))
    requires
        percent_x <= 100,
        percent_y <= 100,
    ensures
        c == horizontal_split_of(
            centered_shares(percent_x),
            vertical_split_of(centered_shares(percent_y), area).1,
        ).1,
{
    let rows = vertical_split(centered_split(percent_y), area);
    let columns = horizontal_split(centered_split(percent_x), rows.1);
    columns.1
}

} // verus!
