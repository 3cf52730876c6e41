use project_tui::app::edit::EditField;
use project_tui::app::event::{handle_key_event, AppEvent, KeyCode, KeyEvent, KeyModifiers};
use project_tui::app::state::{AppState, Command, Screen};
use project_tui::error::AppError;
use project_tui::github::models::{Project, Ticket, TicketDetail};

fn key(code: KeyCode) -> KeyEvent {
    KeyEvent::new(code, KeyModifiers::none())
}

fn ctrl(code: KeyCode) -> KeyEvent {
    KeyEvent::new(code, KeyModifiers::control())
}

fn project(id: &str, title: &str, number: i64) -> Project {
    Project { id: id.to_string(), title: title.to_string(), number }
}

fn ticket(id: &str, title: &str, number: i64) -> Ticket {
    Ticket {
        id: id.to_string(),
        title: title.to_string(),
        number,
        status: Some("Todo".to_string()),
        repository: Some("repo".to_string()),
        state: "OPEN".to_string(),
    }
}

fn screen_name(s: &Screen) -> String {
    match s {
        Screen::ProjectSelector => "selector".to_string(),
        Screen::TicketList { project_id } => format!("list:{}", project_id),
        Screen::TicketDetail { project_id, item_id } => format!("detail:{}:{}", project_id, item_id),
        Screen::TicketEdit { project_id, item_id } => format!("edit:{}:{}", project_id, item_id),
    }
}

fn state_with_projects(n: usize) -> AppState {
    let mut s = AppState::new();
    for i in 0..n {
        s.projects.push(project(&format!("P{}", i), &format!("Project {}", i), i as i64 + 1));
    }
    s
}

#[test]
fn new_state_starts_on_project_selector() {
    let s = AppState::new();
    assert_eq!(screen_name(&s.current_screen), "selector");
    assert!(s.projects.is_empty());
    assert!(s.tickets.is_empty());
    assert!(s.selected_ticket.is_none());
    assert_eq!(s.selected_index, 0);
    assert!(s.error.is_none());
    assert!(!s.loading);
    assert!(!s.should_quit);
    let d = AppState::default();
    assert_eq!(screen_name(&d.current_screen), "selector");
}

#[test]
fn quit_loading_and_errors() {
    let mut s = AppState::new();
    s.set_loading(true);
    assert!(s.loading);
    s.set_error("boom".to_string());
    assert_eq!(s.error.as_deref(), Some("boom"));
    assert!(!s.loading);
    s.clear_error();
    assert!(s.error.is_none());
    assert!(!s.loading);
    s.quit();
    assert!(s.should_quit);
}

#[test]
fn navigate_resets_selection() {
    let mut s = AppState::new();
    s.selected_index = 3;
    s.navigate_to(Screen::TicketList { project_id: "P".to_string() });
    assert_eq!(s.selected_index, 0);
    assert_eq!(screen_name(&s.current_screen), "list:P");
}

#[test]
fn selection_moves_within_bounds() {
    let mut s = AppState::new();
    s.move_selection_up();
    assert_eq!(s.selected_index, 0);
    s.move_selection_down(3);
    s.move_selection_down(3);
    assert_eq!(s.selected_index, 2);
    s.move_selection_down(3);
    assert_eq!(s.selected_index, 2);
    s.move_selection_up();
    assert_eq!(s.selected_index, 1);
    s.move_selection_down(0);
    assert_eq!(s.selected_index, 1);
}

#[test]
fn down_then_up_returns() {
    let mut s = AppState::new();
    s.selected_index = 1;
    s.move_selection_down(5);
    s.move_selection_up();
    assert_eq!(s.selected_index, 1);
}

#[test]
fn q_and_ctrl_c_quit_everywhere() {
    let mut s = state_with_projects(2);
    assert!(matches!(s.handle_key(key(KeyCode::Char('q'))), Command::Idle));
    assert!(s.should_quit);
    let mut s = state_with_projects(2);
    s.navigate_to(Screen::TicketDetail { project_id: "P".into(), item_id: "I".into() });
    s.handle_key(ctrl(KeyCode::Char('c')));
    assert!(s.should_quit);
    let mut s = state_with_projects(2);
    s.handle_key(key(KeyCode::Char('c')));
    assert!(!s.should_quit);
}

#[test]
fn project_selector_navigation() {
    let mut s = state_with_projects(3);
    s.handle_key(key(KeyCode::Char('j')));
    s.handle_key(key(KeyCode::Down));
    s.handle_key(key(KeyCode::Down));
    assert_eq!(s.selected_index, 2);
    s.handle_key(key(KeyCode::Char('k')));
    assert_eq!(s.selected_index, 1);
    s.handle_key(key(KeyCode::Up));
    s.handle_key(key(KeyCode::Up));
    assert_eq!(s.selected_index, 0);
    s.handle_key(key(KeyCode::Esc));
    assert_eq!(screen_name(&s.current_screen), "selector");
}

#[test]
fn enter_on_project_asks_for_its_tickets() {
    let mut s = state_with_projects(3);
    s.handle_key(key(KeyCode::Down));
    let cmd = s.handle_key(key(KeyCode::Enter));
    match cmd {
        Command::LoadTickets { project_id } => assert_eq!(project_id, "P1"),
        _ => panic!("expected a load"),
    }
    assert_eq!(screen_name(&s.current_screen), "list:P1");
    assert!(s.loading);
    assert_eq!(s.selected_index, 0);
}

#[test]
fn enter_without_projects_does_nothing() {
    let mut s = AppState::new();
    assert!(matches!(s.handle_key(key(KeyCode::Enter)), Command::Idle));
    assert_eq!(screen_name(&s.current_screen), "selector");
    assert!(!s.loading);
}

#[test]
fn ticket_load_outcomes() {
    let mut s = state_with_projects(1);
    s.handle_key(key(KeyCode::Enter));
    s.finish_ticket_load(Ok(vec![ticket("T1", "First", 1), ticket("T2", "Second", 2)]));
    assert_eq!(s.tickets.len(), 2);
    assert!(!s.loading);
    assert!(s.error.is_none());

    let mut s = state_with_projects(1);
    s.handle_key(key(KeyCode::Enter));
    s.finish_ticket_load(Err(AppError::GitHub("Project not found".to_string())));
    assert_eq!(
        s.error.as_deref(),
        Some("Failed to load tickets: GitHub API error: Project not found")
    );
    assert!(!s.loading);
}

#[test]
fn project_load_outcomes() {
    let mut s = AppState::new();
    s.set_loading(true);
    s.finish_project_load(Ok(vec![project("P", "Board", 7)]));
    assert_eq!(s.projects.len(), 1);
    assert!(!s.loading);

    let mut s = AppState::new();
    s.set_loading(true);
    s.finish_project_load(Err(AppError::Auth("Token is empty".to_string())));
    assert_eq!(
        s.error.as_deref(),
        Some("Failed to load projects: Authentication error: Token is empty")
    );
    assert!(!s.loading);
}

#[test]
fn open_ticket_then_back_to_list() {
    let mut s = state_with_projects(1);
    s.handle_key(key(KeyCode::Enter));
    s.finish_ticket_load(Ok(vec![ticket("T1", "First", 1), ticket("T2", "Second", 2)]));
    s.handle_key(key(KeyCode::Char('j')));
    s.handle_key(key(KeyCode::Enter));
    assert_eq!(screen_name(&s.current_screen), "detail:P0:T2");
    let d = s.selected_ticket.as_ref().unwrap();
    assert_eq!(d.id, "T2");
    assert_eq!(d.title, "Second");
    assert_eq!(d.number, 2);
    assert!(d.body.is_none());
    assert_eq!(d.url, "");
    assert_eq!(d.status.as_deref(), Some("Todo"));
    s.handle_key(key(KeyCode::Esc));
    assert_eq!(screen_name(&s.current_screen), "list:P0");
    assert_eq!(s.selected_index, 0);
    s.handle_key(key(KeyCode::Esc));
    assert_eq!(screen_name(&s.current_screen), "selector");
}

#[test]
fn edit_then_cancel_returns_to_details() {
    let mut s = state_with_projects(1);
    s.handle_key(key(KeyCode::Enter));
    s.finish_ticket_load(Ok(vec![ticket("T1", "First", 1)]));
    s.handle_key(key(KeyCode::Enter));
    s.handle_key(key(KeyCode::Char('e')));
    assert_eq!(screen_name(&s.current_screen), "edit:P0:T1");
    s.handle_key(key(KeyCode::Tab));
    assert_eq!(screen_name(&s.current_screen), "edit:P0:T1");
    s.handle_key(key(KeyCode::Esc));
    assert_eq!(screen_name(&s.current_screen), "detail:P0:T1");
    assert!(!s.should_quit);
}

#[test]
fn edit_without_ticket_stays() {
    let mut s = AppState::new();
    s.navigate_to(Screen::TicketEdit { project_id: "P".into(), item_id: "I".into() });
    s.handle_key(key(KeyCode::Esc));
    assert_eq!(screen_name(&s.current_screen), "edit:P:I");
}

#[test]
fn ticket_detail_from_ticket() {
    let t = ticket("T9", "Nine", 9);
    let d = TicketDetail::from_ticket(&t);
    assert_eq!(d.id, "T9");
    assert_eq!(d.repository.as_deref(), Some("repo"));
    assert_eq!(d.state, "OPEN");
    assert!(d.body.is_none());
    assert_eq!(d.url, "");
}

#[test]
fn ctrl_c_gives_no_event() {
    assert!(handle_key_event(ctrl(KeyCode::Char('c'))).is_none());
    match handle_key_event(key(KeyCode::Char('c'))) {
        Some(AppEvent::Key(k)) => assert_eq!(k.code, KeyCode::Char('c')),
        _ => panic!("expected a key event"),
    }
    match handle_key_event(ctrl(KeyCode::Char('s'))) {
        Some(AppEvent::Key(k)) => assert!(k.modifiers.contains(KeyModifiers::control())),
        _ => panic!("expected a key event"),
    }
    let shift_ctrl = KeyModifiers { bits: 0x03 };
    assert!(handle_key_event(KeyEvent::new(KeyCode::Char('c'), shift_ctrl)).is_none());
}

#[test]
fn enter_needs_selection_on_an_entry() {
    let mut s = state_with_projects(2);
    assert!(s.key_in_range(&key(KeyCode::Enter)));
    s.selected_index = 5;
    assert!(!s.key_in_range(&key(KeyCode::Enter)));
    assert!(s.key_in_range(&key(KeyCode::Down)));
    let mut e = AppState::new();
    e.selected_index = 5;
    assert!(e.key_in_range(&key(KeyCode::Enter)));
}

#[test]
fn keys_keep_selection_in_list() {
    let mut s = state_with_projects(3);
    for _ in 0..10 {
        s.handle_key(key(KeyCode::Down));
        assert!(s.selected_index < 3);
        assert!(s.key_in_range(&key(KeyCode::Enter)));
    }
    s.handle_key(key(KeyCode::Enter));
    assert_eq!(s.selected_index, 0);
    s.finish_ticket_load(Ok(vec![]));
    assert!(s.key_in_range(&key(KeyCode::Enter)));
    assert!(matches!(s.handle_key(key(KeyCode::Enter)), Command::Idle));
    assert_eq!(screen_name(&s.current_screen), "list:P2");
}

fn in_edit_mode() -> AppState {
    let mut s = state_with_projects(1);
    s.handle_key(key(KeyCode::Enter));
    let mut t = ticket("T1", "Fix", 1);
    t.status = None;
    s.finish_ticket_load(Ok(vec![t]));
    s.handle_key(key(KeyCode::Enter));
    s.handle_key(key(KeyCode::Char('e')));
    s
}

#[test]
fn edit_starts_from_the_ticket() {
    let s = in_edit_mode();
    let d = s.edit.as_ref().unwrap();
    assert_eq!(d.field, EditField::Title);
    assert_eq!(d.title, "Fix");
    assert_eq!(d.body, "");
    assert_eq!(d.status, "");
}

#[test]
fn tab_and_shift_tab_move_focus() {
    let mut s = in_edit_mode();
    s.handle_key(key(KeyCode::Tab));
    assert_eq!(s.edit.as_ref().unwrap().field, EditField::Body);
    s.handle_key(key(KeyCode::Tab));
    assert_eq!(s.edit.as_ref().unwrap().field, EditField::Status);
    s.handle_key(key(KeyCode::Tab));
    assert_eq!(s.edit.as_ref().unwrap().field, EditField::Title);
    s.handle_key(KeyEvent::new(KeyCode::BackTab, KeyModifiers { bits: 0x01 }));
    assert_eq!(s.edit.as_ref().unwrap().field, EditField::Status);
    assert_eq!(screen_name(&s.current_screen), "edit:P0:T1");
}

#[test]
fn typing_and_saving() {
    let mut s = in_edit_mode();
    s.handle_key(key(KeyCode::Char('!')));
    s.handle_key(key(KeyCode::Tab));
    s.handle_key(key(KeyCode::Char('h')));
    s.handle_key(key(KeyCode::Char('i')));
    s.handle_key(key(KeyCode::Backspace));
    s.handle_key(key(KeyCode::Tab));
    s.handle_key(KeyEvent::new(KeyCode::Char('D'), KeyModifiers { bits: 0x01 }));
    assert!(!s.should_quit);
    match s.handle_key(ctrl(KeyCode::Char('s'))) {
        Command::SaveTicket { project_id, item_id, title, body, status } => {
            assert_eq!(project_id, "P0");
            assert_eq!(item_id, "T1");
            assert_eq!(title, "Fix!");
            assert_eq!(body, "h");
            assert_eq!(status, "D");
        }
        _ => panic!("expected a save"),
    }
    assert!(s.loading);
    s.finish_ticket_save(Ok(()));
    assert_eq!(screen_name(&s.current_screen), "detail:P0:T1");
    assert!(s.edit.is_none());
    assert!(!s.loading);
    let t = s.selected_ticket.as_ref().unwrap();
    assert_eq!(t.title, "Fix!");
    assert_eq!(t.body.as_deref(), Some("h"));
    assert_eq!(t.status.as_deref(), Some("D"));
}

#[test]
fn failed_save_keeps_the_draft() {
    let mut s = in_edit_mode();
    s.handle_key(key(KeyCode::Char('x')));
    s.handle_key(ctrl(KeyCode::Char('s')));
    s.finish_ticket_save(Err(AppError::GitHub("denied".to_string())));
    assert_eq!(s.error.as_deref(), Some("Failed to save ticket: GitHub API error: denied"));
    assert_eq!(screen_name(&s.current_screen), "edit:P0:T1");
    assert_eq!(s.edit.as_ref().unwrap().title, "Fixx");
    assert_eq!(s.selected_ticket.as_ref().unwrap().title, "Fix");
}

#[test]
fn escape_discards_the_draft() {
    let mut s = in_edit_mode();
    s.handle_key(key(KeyCode::Char('x')));
    s.handle_key(key(KeyCode::Esc));
    assert!(s.edit.is_none());
    assert_eq!(screen_name(&s.current_screen), "detail:P0:T1");
    assert_eq!(s.selected_ticket.as_ref().unwrap().title, "Fix");
    s.handle_key(key(KeyCode::Char('e')));
    assert_eq!(s.edit.as_ref().unwrap().title, "Fix");
}

#[test]
fn q_is_typed_while_editing() {
    let mut s = in_edit_mode();
    s.handle_key(key(KeyCode::Char('q')));
    assert!(!s.should_quit);
    assert_eq!(s.edit.as_ref().unwrap().title, "Fixq");
    s.handle_key(ctrl(KeyCode::Char('c')));
    assert!(s.should_quit);
}
