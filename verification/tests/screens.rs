use ratatui::layout::{Constraint, Direction, Layout};
use project_tui::app::edit::{EditDraft, EditField};
use project_tui::app::state::{AppState, Screen};
use project_tui::github::models::{Project, Ticket, TicketDetail};
use project_tui::ui::view::{
    centered_rect, centered_split, project_selector_screen, screen_kind, ticket_detail_screen,
    ticket_list_screen, DetailBody, ListBody, ScreenKind, TableBody,
};

#[test]
fn selector_screen_states() {
    let mut s = AppState::new();
    s.set_loading(true);
    let v = project_selector_screen(&s);
    assert_eq!(v.title, "GitHub Projects TUI - Select a Project");
    assert_eq!(v.help, "j/k or ↓/↑: Navigate | Enter: Select | q: Quit");
    assert!(matches!(v.body, ListBody::Message(ref m) if m == "Loading projects..."));
    s.set_loading(false);
    let v = project_selector_screen(&s);
    assert!(matches!(v.body,
        ListBody::Message(ref m) if m == "No projects found.\n\nMake sure you have access to GitHub Projects."));
    s.projects.push(Project { id: "A".into(), title: "Alpha".into(), number: 3 });
    s.projects.push(Project { id: "B".into(), title: "Beta".into(), number: -12 });
    s.selected_index = 1;
    s.set_error("oops".into());
    let v = project_selector_screen(&s);
    match v.body {
        ListBody::Rows(rows) => {
            assert_eq!(rows.len(), 2);
            assert_eq!(rows[0].text, "#3 - Alpha");
            assert!(!rows[0].selected);
            assert_eq!(rows[1].text, "#-12 - Beta");
            assert!(rows[1].selected);
        }
        _ => panic!(),
    }
    assert_eq!(v.error.as_deref(), Some("oops"));
}

#[test]
fn ticket_list_screen_rows() {
    let mut s = AppState::new();
    s.navigate_to(Screen::TicketList { project_id: "P".into() });
    let v = ticket_list_screen(&s);
    assert_eq!(v.header, vec!["#", "Title", "Status", "State", "Repository"]);
    assert!(matches!(v.body, TableBody::Message(ref m) if m == "No tickets found in this project."));
    s.tickets.push(Ticket {
        id: "T".into(),
        title: "Fix".into(),
        number: 12,
        status: None,
        repository: None,
        state: "CLOSED".into(),
    });
    let v = ticket_list_screen(&s);
    assert_eq!(v.title, "GitHub Projects TUI - Ticket List");
    match v.body {
        TableBody::Rows(rows) => {
            assert_eq!(rows.len(), 1);
            assert_eq!(rows[0].number, "12");
            assert_eq!(rows[0].title, "Fix");
            assert_eq!(rows[0].status, "None");
            assert_eq!(rows[0].state, "CLOSED");
            assert_eq!(rows[0].repository, "Unknown");
            assert!(rows[0].selected);
        }
        _ => panic!(),
    }
    s.set_loading(true);
    assert!(matches!(ticket_list_screen(&s).body, TableBody::Message(ref m) if m == "Loading tickets..."));
}

#[test]
fn detail_screen_modes() {
    let mut s = AppState::new();
    s.navigate_to(Screen::TicketDetail { project_id: "P".into(), item_id: "T".into() });
    let v = ticket_detail_screen(&s);
    assert!(!v.edit_mode);
    assert_eq!(v.title, "GitHub Projects TUI - Ticket Details");
    assert_eq!(v.help, "e: Edit | Esc: Back | q: Quit");
    assert!(matches!(v.body, DetailBody::Message(ref m) if m == "Loading ticket details..."));
    s.selected_ticket = Some(TicketDetail {
        id: "T".into(),
        title: "Fix it".into(),
        number: 5,
        body: None,
        status: Some("Done".into()),
        repository: None,
        state: "OPEN".into(),
        url: String::new(),
    });
    s.navigate_to(Screen::TicketEdit { project_id: "P".into(), item_id: "T".into() });
    let v = ticket_detail_screen(&s);
    assert!(v.edit_mode);
    assert_eq!(v.title, "GitHub Projects TUI - Edit Ticket");
    assert_eq!(v.help, "Tab: Next Field | Ctrl+S: Save | Esc: Cancel");
    match v.body {
        DetailBody::Fields(f) => {
            assert_eq!(f.info, "#5 | State: OPEN");
            assert_eq!(f.title, "Fix it");
            assert_eq!(f.status, "Done");
            assert_eq!(f.body, "No description");
        }
        _ => panic!(),
    }
}

#[test]
fn routing_and_popup() {
    assert_eq!(screen_kind(&Screen::ProjectSelector), ScreenKind::ProjectSelector);
    assert_eq!(screen_kind(&Screen::TicketList { project_id: "p".into() }), ScreenKind::TicketList);
    assert_eq!(
        screen_kind(&Screen::TicketEdit { project_id: "p".into(), item_id: "i".into() }),
        ScreenKind::TicketDetail
    );
    assert_eq!(centered_split(60), (20, 60, 20));
    assert_eq!(centered_split(20), (40, 20, 40));
    assert_eq!(centered_split(100), (0, 100, 0));
}

#[test]
fn edit_screen_shows_the_draft() {
    let mut s = AppState::new();
    s.selected_ticket = Some(TicketDetail {
        id: "T".into(),
        title: "Old".into(),
        number: 1,
        body: None,
        status: None,
        repository: None,
        state: "OPEN".into(),
        url: String::new(),
    });
    s.edit = Some(EditDraft {
        field: EditField::Body,
        title: "New".into(),
        body: "".into(),
        status: "Done".into(),
    });
    s.navigate_to(Screen::TicketEdit { project_id: "P".into(), item_id: "T".into() });
    let v = ticket_detail_screen(&s);
    assert_eq!(v.focus, Some(EditField::Body));
    match v.body {
        DetailBody::Fields(f) => {
            assert_eq!(f.title, "New");
            assert_eq!(f.body, "");
            assert_eq!(f.status, "Done");
        }
        _ => panic!(),
    }
    s.navigate_to(Screen::TicketDetail { project_id: "P".into(), item_id: "T".into() });
    let v = ticket_detail_screen(&s);
    assert_eq!(v.focus, None);
    match v.body {
        DetailBody::Fields(f) => assert_eq!(f.title, "Old"),
        _ => panic!(),
    }
}

fn expected_popup(px: u16, py: u16, area: ratatui::layout::Rect) -> ratatui::layout::Rect {
    let rows = Layout::default()
        .direction(Direction::Vertical)
        .constraints([
            Constraint::Percentage((100 - py) / 2),
            Constraint::Percentage(py),
            Constraint::Percentage((100 - py) / 2),
        ])
        .split(area);
    Layout::default()
        .direction(Direction::Horizontal)
        .constraints([
            Constraint::Percentage((100 - px) / 2),
            Constraint::Percentage(px),
            Constraint::Percentage((100 - px) / 2),
        ])
        .split(rows[1])[1]
}

#[test]
fn popup_is_centred() {
    assert_eq!(centered_rect(60, 20, (0, 0, 100, 50)), (20, 20, 60, 10));
    for (px, py, area) in [
        (60, 20, ratatui::layout::Rect::new(0, 0, 80, 24)),
        (50, 50, ratatui::layout::Rect::new(3, 4, 37, 19)),
        (100, 0, ratatui::layout::Rect::new(0, 0, 10, 10)),
    ] {
        let r = expected_popup(px, py, area);
        assert_eq!(
            centered_rect(px, py, (area.x, area.y, area.width, area.height)),
            (r.x, r.y, r.width, r.height)
        );
    }
}
