//! Saving a ticket's status: which project item and which option of the
//! project's Status field a new status means.
use vstd::prelude::*;
use vstd::string::*;

use crate::error::{AppError, AppErrorView};

verus! {

/// The query for what setting a status needs: the project items of the
/// ticket's content (at most fifty), and the project's Status field with
/// its options. Its variables are `contentId` and `projectId`.
pub const STATUS_CONTEXT_QUERY: &'static str = "
            query($contentId: ID!, $projectId: ID!) {
                content: node(id: $contentId) {
                    ... on Issue {
                        projectItems(first: 50) {
                            nodes {
                                id
                                project {
                                    id
                                }
                            }
                        }
                    }
                    ... on PullRequest {
                        projectItems(first: 50) {
                            nodes {
                                id
                                project {
                                    id
                                }
                            }
                        }
                    }
                }
                project: node(id: $projectId) {
                    ... on ProjectV2 {
                        field(name: \"Status\") {
                            ... on ProjectV2SingleSelectField {
                                id
                                options {
                                    id
                                    name
                                }
                            }
                        }
                    }
                }
            }
        ";

/// The mutation that sets a single-select field of a project item; its
/// variables are `projectId`, `itemId`, `fieldId` and `optionId`.
pub const UPDATE_STATUS_MUTATION: &'static str = "
            mutation($projectId: ID!, $itemId: ID!, $fieldId: ID!, $optionId: String!) {
                updateProjectV2ItemFieldValue(input: {projectId: $projectId, itemId: $itemId, fieldId: $fieldId, value: {singleSelectOptionId: $optionId}}) {
                    projectV2Item {
                        id
                    }
                }
            }
        ";

/// The mutation that clears a field of a project item; its variables are
/// `projectId`, `itemId` and `fieldId`.
pub const CLEAR_STATUS_MUTATION: &'static str = "
            mutation($projectId: ID!, $itemId: ID!, $fieldId: ID!) {
                clearProjectV2ItemFieldValue(input: {projectId: $projectId, itemId: $itemId, fieldId: $fieldId}) {
                    projectV2Item {
                        id
                    }
                }
            }
        ";

/// A project item that holds the ticket, and the project it belongs to.
#[derive(Debug)]
pub struct ProjectItemRef {
    pub id: String,
    pub project_id: String,
}

/// One option of a single-select field.
#[derive(Debug)]
pub struct StatusOption {
    pub id: String,
    pub name: String,
}

/// A project's field named Status: its identifier and options are given
/// only when it is a single-select field.
#[derive(Debug)]
pub struct StatusField {
    pub id: Option<String>,
    pub options: Option<Vec<StatusOption>>,
}

/// The answer to the status context query.
#[derive(Debug)]
pub struct StatusContext {
    pub items: Vec<ProjectItemRef>,
    pub field: Option<StatusField>,
}

/// What to send to set the status: the project, the item, the field, and
/// the option to choose (none to clear the field).
#[derive(Debug)]
pub struct StatusUpdate {
    pub project_id: String,
    pub item_id: String,
    pub field_id: String,
    pub option_id: Option<String>,
}

/// The identifier of the first of `items` that belongs to `project`.
pub open spec fn item_in_project(items: Seq<ProjectItemRef>, project: Seq<char>) -> Option<Seq<char>>
    decreases items.len(),
{
    if items.len() == 0 {
        None
    } else if items[0].project_id@ == project {
        Some(items[0].id@)
    } else {
        item_in_project(items.drop_first(), project)
    }
}

/// The identifier of the first of `options` called `name`.
pub open spec fn option_named(options: Seq<StatusOption>, name: Seq<char>) -> Option<Seq<char>>
    decreases options.len(),
{
    if options.len() == 0 {
        None
    } else if options[0].name@ == name {
        Some(options[0].id@)
    } else {
        option_named(options.drop_first(), name)
    }
}

/// What a status update holds, as texts.
pub struct StatusUpdateView {
    pub project_id: Seq<char>,
    pub item_id: Seq<char>,
    pub field_id: Seq<char>,
    pub option_id: Option<Seq<char>>,
}

/// What setting `status` on the ticket in `project` means, or the error
/// that prevents it: the ticket must be an item of the project and the
/// project must have a single-select Status field; an empty status clears
/// the field, any other must be the name of one of its options.
pub open spec fn status_update_of(ctx: StatusContext, project: Seq<char>, status: Seq<char>) -> Result<
    StatusUpdateView,
    AppErrorView,
> {
    match item_in_project(ctx.items@, project) {
        None => Err(AppErrorView::GitHub("Ticket is not an item of this project"@)),
        Some(item) => match ctx.field {
            Some(StatusField { id: Some(field_id), options: Some(options) }) => if status.len() == 0 {
                Ok(StatusUpdateView { project_id: project, item_id: item, field_id: field_id@, option_id: None })
            } else {
                match option_named(options@, status) {
                    None => Err(AppErrorView::GitHub("Unknown status: "@ + status)),
                    Some(o) => Ok(
                        StatusUpdateView {
                            project_id: project,
                            item_id: item,
                            field_id: field_id@,
                            option_id: Some(o),
                        },
                    ),
                }
            },
            _ => Err(AppErrorView::GitHub("Project has no Status field"@)),
        },
    }
}

fn find_item(items: &Vec<ProjectItemRef>, project: &String) -> (r: Option<String>)
    ensures
        crate::github::models::opt_view(r) == item_in_project(items@, project@),
{
    let n = items.len();
    let mut i: usize = 0;
    assert(items@.subrange(0, n as int) =~= items@);
    while i < n
        invariant
            n == items.len(),
            i <= n,
            item_in_project(items@.subrange(i as int, n as int), project@) == item_in_project(
                items@,
                project@,
            ),
        decreases n - i,
    {
        let ghost rest = items@.subrange(i as int, n as int);
        assert(rest[0] == items@[i as int]);
        if items[i].project_id == *project {
            return Some(items[i].id.clone());
        }
        assert(rest.drop_first() =~= items@.subrange(i + 1, n as int));
        i += 1;
    }
    assert(items@.subrange(n as int, n as int) =~= Seq::<ProjectItemRef>::empty());
    None
}

fn find_option(options: &Vec<StatusOption>, name: &String) -> (r: Option<String>)
    ensures
        crate::github::models::opt_view(r) == option_named(options@, name@),
{
    let n = options.len();
    let mut i: usize = 0;
    assert(options@.subrange(0, n as int) =~= options@);
    while i < n
        invariant
            n == options.len(),
            i <= n,
            option_named(options@.subrange(i as int, n as int), name@) == option_named(
                options@,
                name@,
            ),
        decreases n - i,
    {
        let ghost rest = options@.subrange(i as int, n as int);
        assert(rest[0] == options@[i as int]);
        if options[i].name == *name {
            return Some(options[i].id.clone());
        }
        assert(rest.drop_first() =~= options@.subrange(i + 1, n as int));
        i += 1;
    }
    assert(options@.subrange(n as int, n as int) =~= Seq::<StatusOption>::empty());
    None
}

impl StatusUpdate {
    pub open spec fn view_of(self) -> StatusUpdateView {
        StatusUpdateView {
            project_id: self.project_id@,
            item_id: self.item_id@,
            field_id: self.field_id@,
            option_id: crate::github::models::opt_view(self.option_id),
        }
    }
}

/// What setting `status` on the ticket in `project` means (see
/// `status_update_of`).
pub fn status_update(ctx: &StatusContext, project: &String, status: &String) -> (r: Result<
    StatusUpdate,
    AppError,
>)
    ensures
        match (r, status_update_of(*ctx, project@, status@)) {
            (Ok(u), Ok(v)) => u.view_of() == v,
            (Err(e), Err(v)) => e@ == v,
            _ => false,
        },
{
    let item = match find_item(&ctx.items, project) {
        None => {
            return Err(AppError::github("Ticket is not an item of this project"));
        },
        Some(i) => i,
    };
    let (field_id, options) = match &ctx.field {
        Some(StatusField { id: Some(i), options: Some(o) }) => (i, o),
        _ => {
            return Err(AppError::github("Project has no Status field"));
        },
    };
    if status.as_str().is_empty() {
        return Ok(
            StatusUpdate {
                project_id: project.clone(),
                item_id: item,
                field_id: field_id.clone(),
                option_id: None,
            },
        );
    }
    match find_option(options, status) {
        None => Err(
            AppError::GitHub(String::from_str("Unknown status: ").concat(status.as_str())),
        ),
        Some(o) => Ok(
            StatusUpdate {
                project_id: project.clone(),
                item_id: item,
                field_id: field_id.clone(),
                option_id: Some(o),
            },
        ),
    }
}

/// The mutation that carries out `u`: setting the option when there is
/// one, else clearing the field.
pub fn status_mutation(u: &StatusUpdate) -> (m: &'static str)
    ensures
        u.option_id is Some ==> m == UPDATE_STATUS_MUTATION,
        u.option_id is None ==> m == CLEAR_STATUS_MUTATION,
{
    match &u.option_id {
        Some(_) => UPDATE_STATUS_MUTATION,
        None => CLEAR_STATUS_MUTATION,
    }
}

} // verus!
