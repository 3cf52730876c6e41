//! The draft of a ticket being edited: its title, description and status,
//! and the field that keys go to.
use vstd::prelude::*;
use vstd::string::*;

use crate::github::models::{opt_view, TicketDetail, TicketDetailView};
use crate::text::{string_pop, string_push};

verus! {

/// The field of the draft that typing goes to.
#[derive(Clone, Copy, Debug, PartialEq, Eq, Structural)]
pub enum EditField {
    Title,
    Body,
    Status,
}

/// The field after `f` (Tab): title, description, status, then title again.
pub open spec fn next_field(f: EditField) -> EditField {
    match f {
        EditField::Title => EditField::Body,
        EditField::Body => EditField::Status,
        EditField::Status => EditField::Title,
    }
}

/// The field before `f` (Shift+Tab).
pub open spec fn prev_field(f: EditField) -> EditField {
    match f {
        EditField::Title => EditField::Status,
        EditField::Body => EditField::Title,
        EditField::Status => EditField::Body,
    }
}

/// The edited texts of a ticket and the field in focus.
#[derive(Debug)]
pub struct EditDraft {
    pub field: EditField,
    pub title: String,
    pub body: String,
    pub status: String,
}

pub struct EditDraftView {
    pub field: EditField,
    pub title: Seq<char>,
    pub body: Seq<char>,
    pub status: Seq<char>,
}

impl View for EditDraft {
    type V = EditDraftView;

    open spec fn view(&self) -> EditDraftView {
        EditDraftView {
            field: self.field,
            title: self.title@,
            body: self.body@,
            status: self.status@,
        }
    }
}

/// An optional text, empty when missing.
pub open spec fn text_or_empty(o: Option<Seq<char>>) -> Seq<char> {
    match o {
        Some(t) => t,
        None => Seq::empty(),
    }
}

/// A text that is absent when empty.
pub open spec fn absent_if_empty(t: Seq<char>) -> Option<Seq<char>> {
    if t.len() == 0 {
        None
    } else {
        Some(t)
    }
}

/// The draft that editing a ticket starts from: its own texts (empty where
/// it has none), the title in focus.
pub open spec fn draft_of_detail(t: TicketDetailView) -> EditDraftView {
    EditDraftView {
        field: EditField::Title,
        title: t.title,
        body: text_or_empty(t.body),
        status: text_or_empty(t.status),
    }
}

/// The draft with the field in focus changed by `f`.
pub open spec fn draft_with_focused(d: EditDraftView, f: spec_fn(Seq<char>) -> Seq<char>) -> EditDraftView {
    match d.field {
        EditField::Title => EditDraftView { title: f(d.title), ..d },
        EditField::Body => EditDraftView { body: f(d.body), ..d },
        EditField::Status => EditDraftView { status: f(d.status), ..d },
    }
}

/// The draft after typing `c`: appended to the field in focus.
pub open spec fn draft_typed(d: EditDraftView, c: char) -> EditDraftView {
    draft_with_focused(d, |t: Seq<char>| t.push(c))
}

/// Removes the last character of a text, if any.
pub open spec fn erase_last(t: Seq<char>) -> Seq<char> {
    if t.len() == 0 {
        t
    } else {
        t.drop_last()
    }
}

/// The draft after Backspace: the last character of the field in focus gone.
pub open spec fn draft_erased(d: EditDraftView) -> EditDraftView {
    draft_with_focused(d, |t: Seq<char>| erase_last(t))
}

/// The ticket once the draft is saved: the draft's title, and its
/// description and status (none where the draft's is empty).
pub open spec fn detail_saved(t: TicketDetailView, d: EditDraftView) -> TicketDetailView {
    TicketDetailView {
        title: d.title,
        body: absent_if_empty(d.body),
        status: absent_if_empty(d.status),
        ..t
    }
}

fn string_or_empty(o: &Option<String>) -> (s: String)
    ensures
        s@ == text_or_empty(opt_view(*o)),
{
    match o {
        Some(t) => t.clone(),
        None => String::new(),
    }
}

fn absent_when_empty(t: &String) -> (r: Option<String>)
    ensures
        opt_view(r) == absent_if_empty(t@),
{
    if t.as_str().is_empty() {
        None
    } else {
        Some(t.clone())
    }
}

impl EditDraft {
    /// The draft that editing `t` starts from (see `draft_of_detail`).
    pub fn from_detail(t: &TicketDetail) -> (d: EditDraft)
        ensures
            d@ == draft_of_detail(t@),
    {
        EditDraft {
            field: EditField::Title,
            title: t.title.clone(),
            body: string_or_empty(&t.body),
            status: string_or_empty(&t.status),
        }
    }

    /// Moves the focus to the next field.
    pub fn focus_next(&mut self)
        ensures
            final(self)@ == (EditDraftView { field: next_field(old(self)@.field), ..old(self)@ }),
    {
        self.field = match self.field {
            EditField::Title => EditField::Body,
            EditField::Body => EditField::Status,
            EditField::Status => EditField::Title,
        };
    }

    /// Moves the focus to the previous field.
    pub fn focus_prev(&mut self)
        ensures
            final(self)@ == (EditDraftView { field: prev_field(old(self)@.field), ..old(self)@ }),
    {
        self.field = match self.field {
            EditField::Title => EditField::Status,
            EditField::Body => EditField::Title,
            EditField::Status => EditField::Body,
        };
    }

    /// Appends `c` to the field in focus.
    pub fn type_char(&mut self, c: char)
        ensures
            final(self)@ == draft_typed(old(self)@, c),
    {
        match self.field {
            EditField::Title => string_push(&mut self.title, c),
            EditField::Body => string_push(&mut self.body, c),
            EditField::Status => string_push(&mut self.status, c),
        }
    }

    /// Removes the last character of the field in focus, if any.
    pub fn erase(&mut self)
        ensures
            final(self)@ == draft_erased(old(self)@),
    {
        match self.field {
            EditField::Title => {
                let _ = string_pop(&mut self.title);
            },
            EditField::Body => {
                let _ = string_pop(&mut self.body);
            },
            EditField::Status => {
                let _ = string_pop(&mut self.status);
            },
        }
    }

    /// A copy of the draft.
    pub fn duplicate(&self) -> (r: EditDraft)
        ensures
            r@ == self@,
    {
        EditDraft {
            field: self.field,
            title: self.title.clone(),
            body: self.body.clone(),
            status: self.status.clone(),
        }
    }
}

impl TicketDetail {
    /// The ticket once `d` is saved (see `detail_saved`).
    pub fn with_saved_draft(&self, d: &EditDraft) -> (r: TicketDetail)
        ensures
            r@ == detail_saved(self@, d@),
    {
        TicketDetail {
            id: self.id.clone(),
            title: d.title.clone(),
            number: self.number,
            body: absent_when_empty(&d.body),
            status: absent_when_empty(&d.status),
            repository: crate::github::models::clone_opt_string(&self.repository),
            state: self.state.clone(),
            url: self.url.clone(),
        }
    }
}

} // verus!
