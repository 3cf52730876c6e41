//! Projects, tickets and ticket details as the screens show them.
use vstd::prelude::*;
use vstd::string::*;

verus! {

/// A copy of an optional string.
pub fn clone_opt_string(o: &Option<String>) -> (r: Option<String>)
    ensures
        opt_view(r) == opt_view(*o),
{
    match o {
        Some(s) => Some(s.clone()),
        None => None,
    }
}

/// An optional string, by its characters.
pub open spec fn opt_view(o: Option<String>) -> Option<Seq<char>> {
    match o {
        Some(s) => Some(s@),
        None => None,
    }
}

/// A GitHub project (v2).
#[derive(Clone, Debug)]
pub struct Project {
    pub id: String,
    pub title: String,
    pub number: i64,
}

pub struct ProjectView {
    pub id: Seq<char>,
    pub title: Seq<char>,
    pub number: int,
}

impl View for Project {
    type V = ProjectView;

    open spec fn view(&self) -> ProjectView {
        ProjectView { id: self.id@, title: self.title@, number: self.number as int }
    }
}

impl Project {
    /// A field-by-field copy.
    pub fn duplicate(&self) -> (r: Project)
        ensures
            r@ == self@,
    {
        Project { id: self.id.clone(), title: self.title.clone(), number: self.number }
    }
}

/// An item of a project: an issue or a pull request.
#[derive(Clone, Debug)]
pub struct Ticket {
    pub id: String,
    pub title: String,
    pub number: i64,
    pub status: Option<String>,
    pub repository: Option<String>,
    pub state: String,
}

pub struct TicketView {
    pub id: Seq<char>,
    pub title: Seq<char>,
    pub number: int,
    pub status: Option<Seq<char>>,
    pub repository: Option<Seq<char>>,
    pub state: Seq<char>,
}

impl View for Ticket {
    type V = TicketView;

    open spec fn view(&self) -> TicketView {
        TicketView {
            id: self.id@,
            title: self.title@,
            number: self.number as int,
            status: opt_view(self.status),
            repository: opt_view(self.repository),
            state: self.state@,
        }
    }
}

impl Ticket {
    /// A field-by-field copy.
    pub fn duplicate(&self) -> (r: Ticket)
        ensures
            r@ == self@,
    {
        Ticket {
            id: self.id.clone(),
            title: self.title.clone(),
            number: self.number,
            status: clone_opt_string(&self.status),
            repository: clone_opt_string(&self.repository),
            state: self.state.clone(),
        }
    }
}

/// A ticket with its description and address.
#[derive(Clone, Debug)]
pub struct TicketDetail {
    pub id: String,
    pub title: String,
    pub number: i64,
    pub body: Option<String>,
    pub status: Option<String>,
    pub repository: Option<String>,
    pub state: String,
    pub url: String,
}

pub struct TicketDetailView {
    pub id: Seq<char>,
    pub title: Seq<char>,
    pub number: int,
    pub body: Option<Seq<char>>,
    pub status: Option<Seq<char>>,
    pub repository: Option<Seq<char>>,
    pub state: Seq<char>,
    pub url: Seq<char>,
}

impl View for TicketDetail {
    type V = TicketDetailView;

    open spec fn view(&self) -> TicketDetailView {
        TicketDetailView {
            id: self.id@,
            title: self.title@,
            number: self.number as int,
            body: opt_view(self.body),
            status: opt_view(self.status),
            repository: opt_view(self.repository),
            state: self.state@,
            url: self.url@,
        }
    }
}

/// The detail that a list entry gives before the full ticket is fetched:
/// its own fields, no description and no address yet.
pub open spec fn detail_of_ticket(t: TicketView) -> TicketDetailView {
    TicketDetailView {
        id: t.id,
        title: t.title,
        number: t.number,
        body: None,
        status: t.status,
        repository: t.repository,
        state: t.state,
        url: Seq::empty(),
    }
}

impl TicketDetail {
    /// The detail known from a list entry alone (see `detail_of_ticket`).
    pub fn from_ticket(t: &Ticket) -> (d: TicketDetail)
        ensures
            d@ == detail_of_ticket(t@),
    {
        TicketDetail {
            id: t.id.clone(),
            title: t.title.clone(),
            number: t.number,
            body: None,
            status: clone_opt_string(&t.status),
            repository: clone_opt_string(&t.repository),
            state: t.state.clone(),
            url: String::new(),
        }
    }

    /// A field-by-field copy.
    pub fn duplicate(&self) -> (r: TicketDetail)
        ensures
            r@ == self@,
    {
        TicketDetail {
            id: self.id.clone(),
            title: self.title.clone(),
            number: self.number,
            body: clone_opt_string(&self.body),
            status: clone_opt_string(&self.status),
            repository: clone_opt_string(&self.repository),
            state: self.state.clone(),
            url: self.url.clone(),
        }
    }
}

} // verus!
