//! The screens of the application, its state, and how a key press moves it.
use vstd::prelude::*;
use vstd::string::*;

use crate::app::edit::{
    detail_saved, draft_erased, draft_of_detail, draft_typed, next_field, prev_field, EditDraft,
    EditDraftView,
};
use crate::app::event::{has_control, is_ctrl_c, KeyCode, KeyEvent, KeyModifiers};
use crate::error::{network_text, AppError, AppErrorView};
use crate::github::models::{
    detail_of_ticket, opt_view, Project, ProjectView, Ticket, TicketDetail, TicketDetailView,
    TicketView,
};

verus! {

/// The screen on display.
#[derive(Clone, Debug)]
pub enum Screen {
    ProjectSelector,
    TicketList { project_id: String },
    TicketDetail { project_id: String, item_id: String },
    TicketEdit { project_id: String, item_id: String },
}

pub enum ScreenView {
    ProjectSelector,
    TicketList { project_id: Seq<char> },
    TicketDetail { project_id: Seq<char>, item_id: Seq<char> },
    TicketEdit { project_id: Seq<char>, item_id: Seq<char> },
}

impl View for Screen {
    type V = ScreenView;

    open spec fn view(&self) -> ScreenView {
        match self {
            Screen::ProjectSelector => ScreenView::ProjectSelector,
            Screen::TicketList { project_id } => ScreenView::TicketList { project_id: project_id@ },
            Screen::TicketDetail { project_id, item_id } => ScreenView::TicketDetail {
                project_id: project_id@,
                item_id: item_id@,
            },
            Screen::TicketEdit { project_id, item_id } => ScreenView::TicketEdit {
                project_id: project_id@,
                item_id: item_id@,
            },
        }
    }
}

impl Screen {
    /// A copy of the screen.
    pub fn duplicate(&self) -> (r: Screen)
        ensures
            r@ == self@,
    {
        match self {
            Screen::ProjectSelector => Screen::ProjectSelector,
            Screen::TicketList { project_id } => Screen::TicketList { project_id: project_id.clone() },
            Screen::TicketDetail { project_id, item_id } => Screen::TicketDetail {
                project_id: project_id.clone(),
                item_id: item_id.clone(),
            },
            Screen::TicketEdit { project_id, item_id } => Screen::TicketEdit {
                project_id: project_id.clone(),
                item_id: item_id.clone(),
            },
        }
    }
}

/// Everything the application shows and remembers.
#[derive(Debug)]
pub struct AppState {
    pub current_screen: Screen,
    pub projects: Vec<Project>,
    pub tickets: Vec<Ticket>,
    pub selected_ticket: Option<TicketDetail>,
    pub selected_index: usize,
    pub error: Option<String>,
    pub loading: bool,
    pub should_quit: bool,
    /// The draft of the ticket being edited, on the edit screen.
    pub edit: Option<EditDraft>,
}

pub struct AppStateView {
    pub screen: ScreenView,
    pub projects: Seq<ProjectView>,
    pub tickets: Seq<TicketView>,
    pub selected_ticket: Option<TicketDetailView>,
    pub selected_index: nat,
    pub error: Option<Seq<char>>,
    pub loading: bool,
    pub should_quit: bool,
    pub edit: Option<EditDraftView>,
}

pub open spec fn detail_opt_view(o: Option<TicketDetail>) -> Option<TicketDetailView> {
    match o {
        Some(d) => Some(d@),
        None => None,
    }
}

pub open spec fn draft_opt_view(o: Option<EditDraft>) -> Option<EditDraftView> {
    match o {
        Some(d) => Some(d@),
        None => None,
    }
}

/// The draft that editing the selected ticket starts from, if one is selected.
pub open spec fn draft_of_selected(t: Option<TicketDetailView>) -> Option<EditDraftView> {
    match t {
        Some(t) => Some(draft_of_detail(t)),
        None => None,
    }
}

impl View for AppState {
    type V = AppStateView;

    open spec fn view(&self) -> AppStateView {
        AppStateView {
            screen: self.current_screen@,
            projects: self.projects@.map_values(|p: Project| p@),
            tickets: self.tickets@.map_values(|t: Ticket| t@),
            selected_ticket: detail_opt_view(self.selected_ticket),
            selected_index: self.selected_index as nat,
            error: opt_view(self.error),
            loading: self.loading,
            should_quit: self.should_quit,
            edit: draft_opt_view(self.edit),
        }
    }
}

/// A freshly started application: the project list, nothing loaded,
/// nothing selected, no error.
pub open spec fn initial_state() -> AppStateView {
    AppStateView {
        screen: ScreenView::ProjectSelector,
        projects: Seq::empty(),
        tickets: Seq::empty(),
        selected_ticket: None,
        selected_index: 0,
        error: None,
        loading: false,
        should_quit: false,
        edit: None,
    }
}

/// The selection may stand on any entry of the list on display, or at the
/// top when that list is empty; screens without a list put no bound on it.
pub open spec fn selection_in_bounds(s: AppStateView) -> bool {
    match s.screen {
        ScreenView::ProjectSelector => s.selected_index == 0 || s.selected_index < s.projects.len(),
        ScreenView::TicketList { .. } => s.selected_index == 0 || s.selected_index < s.tickets.len(),
        _ => true,
    }
}

/// Enter opens the selected entry of a non-empty list, so the selection
/// must then stand on one of its entries.
pub open spec fn enter_in_range(s: AppStateView, key: KeyEvent) -> bool {
    key.code == KeyCode::Enter ==> match s.screen {
        ScreenView::ProjectSelector => s.projects.len() > 0 ==> s.selected_index < s.projects.len(),
        ScreenView::TicketList { .. } => s.tickets.len() > 0 ==> s.selected_index < s.tickets.len(),
        _ => true,
    }
}

/// The selection one step down a list of `max` entries (it stays on the last).
pub open spec fn index_down(i: nat, max: nat) -> nat {
    if i + 1 < max {
        (i + 1) as nat
    } else {
        i
    }
}

/// The selection one step up (it stays on the first).
pub open spec fn index_up(i: nat) -> nat {
    if i > 0 {
        (i - 1) as nat
    } else {
        i
    }
}

/// The state after showing `screen`, with the selection back at the top.
pub open spec fn navigated(s: AppStateView, screen: ScreenView) -> AppStateView {
    AppStateView { screen: screen, selected_index: 0, ..s }
}

/// What the main loop must do after a key press.
pub enum Command {
    /// Nothing more.
    Idle,
    /// Fetch the items of this project and report with `finish_ticket_load`.
    LoadTickets { project_id: String },
    /// Save the edited texts of this ticket and report with
    /// `finish_ticket_save`.
    SaveTicket {
        project_id: String,
        item_id: String,
        title: String,
        body: String,
        status: String,
    },
}

pub enum CommandView {
    Idle,
    LoadTickets { project_id: Seq<char> },
    SaveTicket {
        project_id: Seq<char>,
        item_id: Seq<char>,
        title: Seq<char>,
        body: Seq<char>,
        status: Seq<char>,
    },
}

impl View for Command {
    type V = CommandView;

    open spec fn view(&self) -> CommandView {
        match self {
            Command::Idle => CommandView::Idle,
            Command::LoadTickets { project_id } => CommandView::LoadTickets { project_id: project_id@ },
            Command::SaveTicket { project_id, item_id, title, body, status } => {
                CommandView::SaveTicket {
                    project_id: project_id@,
                    item_id: item_id@,
                    title: title@,
                    body: body@,
                    status: status@,
                }
            },
        }
    }
}

/// The keys that end the application: Ctrl+C on every screen, and `q` on
/// every screen but the edit screen, where it is typed like any letter.
pub open spec fn is_quit_key(s: AppStateView, key: KeyEvent) -> bool {
    is_ctrl_c(key) || (key.code == KeyCode::Char('q') && !(s.screen is TicketEdit))
}

/// A key that moves the selection down.
pub open spec fn is_down_key(key: KeyEvent) -> bool {
    key.code == KeyCode::Char('j') || key.code == KeyCode::Down
}

/// A key that moves the selection up.
pub open spec fn is_up_key(key: KeyEvent) -> bool {
    key.code == KeyCode::Char('k') || key.code == KeyCode::Up
}

/// Ctrl+S: save the draft.
pub open spec fn is_save_key(key: KeyEvent) -> bool {
    key.code == KeyCode::Char('s') && has_control(key.modifiers)
}

/// A character typed without Control: it goes into the draft.
pub open spec fn is_text_key(key: KeyEvent) -> bool {
    key.code is Char && !has_control(key.modifiers)
}

/// How the edit screen of ticket `item_id` reacts to a key. Esc cancels: the
/// draft is dropped and the ticket's details come back. With a draft, Tab
/// and Shift+Tab move the focus, Ctrl+S asks for the draft to be saved,
/// Backspace erases and other characters are typed into the field in focus.
pub open spec fn edit_step(
    s: AppStateView,
    project_id: Seq<char>,
    item_id: Seq<char>,
    key: KeyEvent,
) -> (AppStateView, CommandView) {
    if key.code == KeyCode::Esc {
        let s1 = AppStateView { edit: None, ..s };
        if s.selected_ticket is Some {
            (
                navigated(
                    s1,
                    ScreenView::TicketDetail {
                        project_id: project_id,
                        item_id: s.selected_ticket->0.id,
                    },
                ),
                CommandView::Idle,
            )
        } else {
            (s1, CommandView::Idle)
        }
    } else if s.edit is None {
        (s, CommandView::Idle)
    } else {
        let d = s.edit->0;
        if key.code == KeyCode::Tab {
            (
                AppStateView { edit: Some(EditDraftView { field: next_field(d.field), ..d }), ..s },
                CommandView::Idle,
            )
        } else if key.code == KeyCode::BackTab {
            (
                AppStateView { edit: Some(EditDraftView { field: prev_field(d.field), ..d }), ..s },
                CommandView::Idle,
            )
        } else if is_save_key(key) {
            (
                AppStateView { loading: true, ..s },
                CommandView::SaveTicket {
                    project_id: project_id,
                    item_id: item_id,
                    title: d.title,
                    body: d.body,
                    status: d.status,
                },
            )
        } else if key.code == KeyCode::Backspace {
            (AppStateView { edit: Some(draft_erased(d)), ..s }, CommandView::Idle)
        } else if is_text_key(key) {
            (AppStateView { edit: Some(draft_typed(d, key.code->Char_0)), ..s }, CommandView::Idle)
        } else {
            (s, CommandView::Idle)
        }
    }
}

/// How the screen on display reacts to a key.
pub open spec fn screen_step(s: AppStateView, key: KeyEvent) -> (AppStateView, CommandView) {
    match s.screen {
        ScreenView::ProjectSelector => {
            if is_down_key(key) {
                (
                    AppStateView {
                        selected_index: index_down(s.selected_index, s.projects.len()),
                        ..s
                    },
                    CommandView::Idle,
                )
            } else if is_up_key(key) {
                (AppStateView { selected_index: index_up(s.selected_index), ..s }, CommandView::Idle)
            } else if key.code == KeyCode::Enter && s.projects.len() > 0 {
                let id = s.projects[s.selected_index as int].id;
                (
                    AppStateView {
                        loading: true,
                        ..navigated(s, ScreenView::TicketList { project_id: id })
                    },
                    CommandView::LoadTickets { project_id: id },
                )
            } else {
                (s, CommandView::Idle)
            }
        },
        ScreenView::TicketList { project_id } => {
            if is_down_key(key) {
                (
                    AppStateView {
                        selected_index: index_down(s.selected_index, s.tickets.len()),
                        ..s
                    },
                    CommandView::Idle,
                )
            } else if is_up_key(key) {
                (AppStateView { selected_index: index_up(s.selected_index), ..s }, CommandView::Idle)
            } else if key.code == KeyCode::Enter && s.tickets.len() > 0 {
                let t = s.tickets[s.selected_index as int];
                (
                    navigated(
                        AppStateView { selected_ticket: Some(detail_of_ticket(t)), ..s },
                        ScreenView::TicketDetail { project_id: project_id, item_id: t.id },
                    ),
                    CommandView::Idle,
                )
            } else if key.code == KeyCode::Esc {
                (navigated(s, ScreenView::ProjectSelector), CommandView::Idle)
            } else {
                (s, CommandView::Idle)
            }
        },
        ScreenView::TicketDetail { project_id, item_id } => {
            if key.code == KeyCode::Char('e') {
                (
                    navigated(
                        AppStateView { edit: draft_of_selected(s.selected_ticket), ..s },
                        ScreenView::TicketEdit { project_id: project_id, item_id: item_id },
                    ),
                    CommandView::Idle,
                )
            } else if key.code == KeyCode::Esc {
                (
                    navigated(s, ScreenView::TicketList { project_id: project_id }),
                    CommandView::Idle,
                )
            } else {
                (s, CommandView::Idle)
            }
        },
        ScreenView::TicketEdit { project_id, item_id } => edit_step(s, project_id, item_id, key),
    }
}

/// A key press: a quit key first marks the application for exit, then the
/// screen on display reacts to the key.
pub open spec fn key_step(s: AppStateView, key: KeyEvent) -> (AppStateView, CommandView) {
    let s1 = if is_quit_key(s, key) {
        AppStateView { should_quit: true, ..s }
    } else {
        s
    };
    screen_step(s1, key)
}

/// The state once the items of the chosen project have arrived.
pub open spec fn tickets_loaded(s: AppStateView, tickets: Seq<TicketView>) -> AppStateView {
    AppStateView { tickets: tickets, loading: false, ..s }
}

/// The selected ticket once the draft is saved into it.
pub open spec fn saved_ticket(
    t: Option<TicketDetailView>,
    d: Option<EditDraftView>,
) -> Option<TicketDetailView> {
    match t {
        Some(t) => match d {
            Some(d) => Some(detail_saved(t, d)),
            None => Some(t),
        },
        None => None,
    }
}

/// The state once the draft has been saved: the selected ticket takes the
/// draft's texts, the draft is dropped, loading stops, and the edit screen
/// gives way to the ticket's details.
pub open spec fn ticket_saved(s: AppStateView) -> AppStateView {
    let s1 = AppStateView {
        selected_ticket: saved_ticket(s.selected_ticket, s.edit),
        edit: None,
        loading: false,
        ..s
    };
    match s.screen {
        ScreenView::TicketEdit { project_id, item_id } => navigated(
            s1,
            ScreenView::TicketDetail { project_id: project_id, item_id: item_id },
        ),
        _ => s1,
    }
}

/// The state once the projects have arrived.
pub open spec fn projects_loaded(s: AppStateView, projects: Seq<ProjectView>) -> AppStateView {
    AppStateView { projects: projects, loading: false, ..s }
}

/// The state after an error is reported: the message is kept and loading stops.
pub open spec fn error_reported(s: AppStateView, msg: Seq<char>) -> AppStateView {
    AppStateView { error: Some(msg), loading: false, ..s }
}

/// The message for a failed load: `what`, then the error's own text.
pub open spec fn failure_text_ok(text: Seq<char>, what: Seq<char>, e: AppErrorView) -> bool {
    &&& text.len() >= what.len()
    &&& text.subrange(0, what.len() as int) == what
    &&& match e {
        AppErrorView::Config(m) => text == what + "Configuration error: "@ + m,
        AppErrorView::Auth(m) => text == what + "Authentication error: "@ + m,
        AppErrorView::GitHub(m) => text == what + "GitHub API error: "@ + m,
        AppErrorView::Network(err) => network_text(err, text.subrange(what.len() as int, text.len() as int)),
    }
}

impl Default for AppState {
    fn default() -> (s: AppState)
        ensures
            s@ == initial_state(),
    {
        let s = AppState {
            current_screen: Screen::ProjectSelector,
            projects: Vec::new(),
            tickets: Vec::new(),
            selected_ticket: None,
            selected_index: 0,
            error: None,
            loading: false,
            should_quit: false,
            edit: None,
        };
        assert(s@.projects =~= Seq::empty());
        assert(s@.tickets =~= Seq::empty());
        s
    }
}

impl AppState {
    /// Whether `key` can be handled: Enter needs the selection on an entry
    /// of a non-empty list (see `enter_in_range`).
    pub fn key_in_range(&self, key: &KeyEvent) -> (r: bool)
        ensures
            r == enter_in_range(self@, *key),
    {
        match key.code {
            KeyCode::Enter => match &self.current_screen {
                Screen::ProjectSelector => self.projects.len() == 0 || self.selected_index
                    < self.projects.len(),
                Screen::TicketList { .. } => self.tickets.len() == 0 || self.selected_index
                    < self.tickets.len(),
                _ => true,
            },
            _ => true,
        }
    }

    /// A freshly started application (see `initial_state`).
    pub fn new() -> (s: AppState)
        ensures
            s@ == initial_state(),
    {
        Self::default()
    }

    /// Marks the application for exit.
    pub fn quit(&mut self)
        ensures
            final(self)@ == (AppStateView { should_quit: true, ..old(self)@ }),
    {
        self.should_quit = true;
    }

    /// Sets whether a load is under way.
    pub fn set_loading(&mut self, loading: bool)
        ensures
            final(self)@ == (AppStateView { loading: loading, ..old(self)@ }),
    {
        self.loading = loading;
    }

    /// Reports an error: it is kept for display and loading stops.
    pub fn set_error(&mut self, error: String)
        ensures
            final(self)@ == error_reported(old(self)@, error@),
    {
        self.error = Some(error);
        self.loading = false;
    }

    /// Forgets the error on display.
    pub fn clear_error(&mut self)
        ensures
            final(self)@ == (AppStateView { error: None, ..old(self)@ }),
    {
        self.error = None;
    }

    /// Shows `screen` with the selection back at the top.
    pub fn navigate_to(&mut self, screen: Screen)
        ensures
            final(self)@ == navigated(old(self)@, screen@),
    {
        self.current_screen = screen;
        self.selected_index = 0;
    }

    /// Moves the selection one entry up, unless it is on the first.
    pub fn move_selection_up(&mut self)
        ensures
            final(self)@ == (AppStateView {
                selected_index: index_up(old(self)@.selected_index),
                ..old(self)@
            }),
    {
        if self.selected_index > 0 {
            self.selected_index -= 1;
        }
    }

    /// Moves the selection one entry down a list of `max` entries, unless it
    /// is on the last.
    pub fn move_selection_down(&mut self, max: usize)
        ensures
            final(self)@ == (AppStateView {
                selected_index: index_down(old(self)@.selected_index, max as nat),
                ..old(self)@
            }),
    {
        if self.selected_index < max.saturating_sub(1) {
            self.selected_index += 1;
        }
    }
}


/// The text of a failed load: `what`, then the error's message.
fn failure_text(what: &str, e: &AppError) -> (text: String)
    ensures
        failure_text_ok(text@, what@, e@),
{
    let m = e.message();
    let text = String::from_str(what).concat(m.as_str());
    proof {
        assert(text@.subrange(0, what@.len() as int) =~= what@);
        match e@ {
            AppErrorView::Config(x) => {
                assert(text@ =~= what@ + "Configuration error: "@ + x);
            },
            AppErrorView::Auth(x) => {
                assert(text@ =~= what@ + "Authentication error: "@ + x);
            },
            AppErrorView::GitHub(x) => {
                assert(text@ =~= what@ + "GitHub API error: "@ + x);
            },
            AppErrorView::Network(_) => {
                assert(text@.subrange(what@.len() as int, text@.len() as int) =~= m@);
            },
        }
    }
    text
}

impl AppState {
    /// Reacts to a key press (see `key_step`): `q` and Ctrl+C mark the
    /// application for exit, then the screen on display handles the key.
    /// When a project is opened the caller must fetch its items and report
    /// them with `finish_ticket_load`.
    pub fn handle_key(&mut self, key: KeyEvent) -> (cmd: Command)
        requires
            enter_in_range(old(self)@, key),
        ensures
            (final(self)@, cmd@) == key_step(old(self)@, key),
    {
        let ctrl = key.modifiers.contains(KeyModifiers::control());
        let editing = match &self.current_screen {
            Screen::TicketEdit { .. } => true,
            _ => false,
        };
        let quit = match key.code {
            KeyCode::Char('q') => !editing,
            KeyCode::Char('c') => ctrl,
            _ => false,
        };
        if quit {
            self.quit();
        }
        let screen = self.current_screen.duplicate();
        match screen {
            Screen::ProjectSelector => match key.code {
                KeyCode::Char('j') | KeyCode::Down => {
                    let n = self.projects.len();
                    self.move_selection_down(n);
                    Command::Idle
                },
                KeyCode::Char('k') | KeyCode::Up => {
                    self.move_selection_up();
                    Command::Idle
                },
                KeyCode::Enter => {
                    if self.projects.len() > 0 {
                        let id = self.projects[self.selected_index].id.clone();
                        self.navigate_to(Screen::TicketList { project_id: id.clone() });
                        self.set_loading(true);
                        Command::LoadTickets { project_id: id }
                    } else {
                        Command::Idle
                    }
                },
                _ => Command::Idle,
            },
            Screen::TicketList { project_id } => match key.code {
                KeyCode::Char('j') | KeyCode::Down => {
                    let n = self.tickets.len();
                    self.move_selection_down(n);
                    Command::Idle
                },
                KeyCode::Char('k') | KeyCode::Up => {
                    self.move_selection_up();
                    Command::Idle
                },
                KeyCode::Enter => {
                    if self.tickets.len() > 0 {
                        let detail = TicketDetail::from_ticket(&self.tickets[self.selected_index]);
                        let item_id = self.tickets[self.selected_index].id.clone();
                        self.selected_ticket = Some(detail);
                        self.navigate_to(Screen::TicketDetail { project_id, item_id });
                    }
                    Command::Idle
                },
                KeyCode::Esc => {
                    self.navigate_to(Screen::ProjectSelector);
                    Command::Idle
                },
                _ => Command::Idle,
            },
            Screen::TicketDetail { project_id, item_id } => match key.code {
                KeyCode::Char('e') => {
                    self.edit = match &self.selected_ticket {
                        Some(t) => Some(EditDraft::from_detail(t)),
                        None => None,
                    };
                    self.navigate_to(Screen::TicketEdit { project_id, item_id });
                    Command::Idle
                },
                KeyCode::Esc => {
                    self.navigate_to(Screen::TicketList { project_id });
                    Command::Idle
                },
                _ => Command::Idle,
            },
            Screen::TicketEdit { project_id, item_id } => self.handle_edit_key(
                project_id,
                item_id,
                key,
                ctrl,
            ),
        }
    }

    /// The edit screen's part of `handle_key` (see `edit_step`).
    fn handle_edit_key(&mut self, project_id: String, item_id: String, key: KeyEvent, ctrl: bool) -> (cmd: Command)
        requires
            ctrl == has_control(key.modifiers),
        ensures
            (final(self)@, cmd@) == edit_step(old(self)@, project_id@, item_id@, key),
    {
        if let KeyCode::Esc = key.code {
            self.edit = None;
            let item = match &self.selected_ticket {
                Some(t) => Some(t.id.clone()),
                None => None,
            };
            match item {
                Some(ticket_id) => {
                    self.navigate_to(Screen::TicketDetail { project_id, item_id: ticket_id });
                },
                None => {},
            }
            return Command::Idle;
        }
        let draft = self.edit.take();
        match draft {
            None => Command::Idle,
            Some(mut d) => {
                let cmd = match key.code {
                    KeyCode::Tab => {
                        d.focus_next();
                        Command::Idle
                    },
                    KeyCode::BackTab => {
                        d.focus_prev();
                        Command::Idle
                    },
                    KeyCode::Char('s') if ctrl => {
                        self.loading = true;
                        Command::SaveTicket {
                            project_id,
                            item_id,
                            title: d.title.clone(),
                            body: d.body.clone(),
                            status: d.status.clone(),
                        }
                    },
                    KeyCode::Backspace => {
                        d.erase();
                        Command::Idle
                    },
                    KeyCode::Char(c) if !ctrl => {
                        d.type_char(c);
                        Command::Idle
                    },
                    _ => Command::Idle,
                };
                self.edit = Some(d);
                cmd
            },
        }
    }

    /// Records the outcome of saving the draft: on success see
    /// `ticket_saved`; on failure the error is reported with the words
    /// "Failed to save ticket: " in front and the draft is kept.
    pub fn finish_ticket_save(&mut self, result: Result<(), AppError>)
        ensures
            match result {
                Ok(()) => final(self)@ == ticket_saved(old(self)@),
                Err(e) => {
                    &&& final(self)@.error is Some
                    &&& final(self)@ == error_reported(old(self)@, final(self)@.error->0)
                    &&& failure_text_ok(final(self)@.error->0, "Failed to save ticket: "@, e@)
                },
            },
    {
        match result {
            Ok(()) => {
                let draft = self.edit.take();
                match draft {
                    Some(d) => {
                        let updated = match &self.selected_ticket {
                            Some(t) => Some(t.with_saved_draft(&d)),
                            None => None,
                        };
                        self.selected_ticket = updated;
                    },
                    None => {},
                }
                self.loading = false;
                let screen = self.current_screen.duplicate();
                match screen {
                    Screen::TicketEdit { project_id, item_id } => {
                        self.navigate_to(Screen::TicketDetail { project_id, item_id });
                    },
                    _ => {},
                }
            },
            Err(e) => {
                let text = failure_text("Failed to save ticket: ", &e);
                self.set_error(text);
            },
        }
    }

    /// Records the outcome of loading the projects: on success the list is
    /// replaced and loading stops; on failure the error is reported with the
    /// words "Failed to load projects: " in front.
    pub fn finish_project_load(&mut self, result: Result<Vec<Project>, AppError>)
        ensures
            match result {
                Ok(ps) => final(self)@ == projects_loaded(
                    old(self)@,
                    ps@.map_values(|p: Project| p@),
                ),
                Err(e) => {
                    &&& final(self)@.error is Some
                    &&& final(self)@ == error_reported(old(self)@, final(self)@.error->0)
                    &&& failure_text_ok(final(self)@.error->0, "Failed to load projects: "@, e@)
                },
            },
    {
        match result {
            Ok(ps) => {
                self.projects = ps;
                self.set_loading(false);
            },
            Err(e) => {
                let text = failure_text("Failed to load projects: ", &e);
                self.set_error(text);
            },
        }
    }

    /// Records the outcome of loading a project's items: on success the list
    /// is replaced and loading stops; on failure the error is reported with
    /// the words "Failed to load tickets: " in front.
    pub fn finish_ticket_load(&mut self, result: Result<Vec<Ticket>, AppError>)
        ensures
            match result {
                Ok(ts) => final(self)@ == tickets_loaded(
                    old(self)@,
                    ts@.map_values(|t: Ticket| t@),
                ),
                Err(e) => {
                    &&& final(self)@.error is Some
                    &&& final(self)@ == error_reported(old(self)@, final(self)@.error->0)
                    &&& failure_text_ok(final(self)@.error->0, "Failed to load tickets: "@, e@)
                },
            },
    {
        match result {
            Ok(ts) => {
                self.tickets = ts;
                self.set_loading(false);
            },
            Err(e) => {
                let text = failure_text("Failed to load tickets: ", &e);
                self.set_error(text);
            },
        }
    }
}

} // verus!
