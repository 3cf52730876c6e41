//! The data that GitHub's answers carry, and how it becomes the projects
//! and tickets the screens show.
use vstd::prelude::*;
use vstd::string::*;

use crate::error::{AppError, AppErrorView};
use crate::github::models::{Project, ProjectView, Ticket, TicketView};

verus! {

/// A project as the projects query returns it.
#[derive(Debug)]
pub struct ProjectNode {
    pub id: String,
    pub title: String,
    pub number: i64,
}

/// The viewer's projects.
#[derive(Debug)]
pub struct ProjectsConnection {
    pub nodes: Vec<ProjectNode>,
}

/// The signed-in user.
#[derive(Debug)]
pub struct Viewer {
    pub projects_v2: ProjectsConnection,
}

/// The data of the projects query.
#[derive(Debug)]
pub struct ProjectsData {
    pub viewer: Viewer,
}

/// The project that a projects-query node describes.
pub open spec fn project_of_node(n: ProjectNode) -> ProjectView {
    ProjectView { id: n.id@, title: n.title@, number: n.number as int }
}

/// The projects of the projects query, in the order GitHub gave them.
pub fn projects_from_data(data: &ProjectsData) -> (r: Vec<Project>)
    ensures
        r@.len() == data.viewer.projects_v2.nodes@.len(),
        forall|i: int|
            0 <= i < r@.len() ==> #[trigger] r@[i]@ == project_of_node(
                data.viewer.projects_v2.nodes@[i],
            ),
{
    let nodes = &data.viewer.projects_v2.nodes;
    let mut out: Vec<Project> = Vec::new();
    let n = nodes.len();
    let mut i: usize = 0;
    while i < n
        invariant
            n == nodes.len(),
            i <= n,
            out.len() == i,
            forall|j: int| 0 <= j < i ==> #[trigger] out@[j]@ == project_of_node(nodes@[j]),
        decreases n - i,
    {
        let node = &nodes[i];
        out.push(Project { id: node.id.clone(), title: node.title.clone(), number: node.number });
        i += 1;
    }
    out
}

/// The repository that holds an issue or pull request.
#[derive(Debug)]
pub struct Repository {
    pub name: String,
}

/// The fields of an issue or pull request that the items query asks for.
#[derive(Debug)]
pub struct ContentFields {
    pub id: String,
    pub title: String,
    pub number: i64,
    pub state: String,
    pub repository: Repository,
}

/// What a project item holds.
#[derive(Debug)]
pub enum Content {
    Issue(ContentFields),
    PullRequest(ContentFields),
}

/// A value of one of an item's fields: a single-select choice, or a value
/// of another kind, whose details are not asked for.
#[derive(Debug)]
pub enum FieldValue {
    ProjectV2ItemFieldSingleSelectValue { name: String },
    Other,
}

/// An item's field values.
#[derive(Debug)]
pub struct FieldValuesConnection {
    pub nodes: Vec<FieldValue>,
}

/// A project item: its content (missing for a draft or an inaccessible
/// item) and its field values.
#[derive(Debug)]
pub struct ItemNode {
    pub id: String,
    pub content: Option<Content>,
    pub field_values: FieldValuesConnection,
}

/// A project's items.
#[derive(Debug)]
pub struct ItemsConnection {
    pub nodes: Vec<ItemNode>,
}

/// The project that the items query found.
#[derive(Debug)]
pub struct ProjectItemsNode {
    pub items: ItemsConnection,
}

/// The data of the items query: the project, if the identifier named one.
#[derive(Debug)]
pub struct ItemsData {
    pub node: Option<ProjectItemsNode>,
}

/// The name of the first single-select value among `values`, if any.
pub open spec fn first_single_select(values: Seq<FieldValue>) -> Option<Seq<char>>
    decreases values.len(),
{
    if values.len() == 0 {
        None
    } else {
        match values[0] {
            FieldValue::ProjectV2ItemFieldSingleSelectValue { name } => Some(name@),
            FieldValue::Other => first_single_select(values.drop_first()),
        }
    }
}

/// The fields of a content, whichever kind it is.
pub open spec fn content_fields(c: Content) -> ContentFields {
    match c {
        Content::Issue(f) => f,
        Content::PullRequest(f) => f,
    }
}

/// The ticket that an item shows, or none for an item without content: the
/// content's own identifier, title, number and state, the repository's name,
/// and as status the first single-select value of the item.
pub open spec fn ticket_of_item(item: ItemNode) -> Option<TicketView> {
    match item.content {
        Some(c) => {
            let f = content_fields(c);
            Some(
                TicketView {
                    id: f.id@,
                    title: f.title@,
                    number: f.number as int,
                    status: first_single_select(item.field_values.nodes@),
                    repository: Some(f.repository.name@),
                    state: f.state@,
                },
            )
        },
        None => None,
    }
}

/// The tickets of a list of items: one per item with content, in order.
pub open spec fn tickets_of_items(items: Seq<ItemNode>) -> Seq<TicketView>
    decreases items.len(),
{
    if items.len() == 0 {
        Seq::empty()
    } else {
        let rest = tickets_of_items(items.drop_last());
        match ticket_of_item(items.last()) {
            Some(t) => rest.push(t),
            None => rest,
        }
    }
}

/// The status of an item: its first single-select value.
pub fn first_status(values: &Vec<FieldValue>) -> (r: Option<String>)
    ensures
        crate::github::models::opt_view(r) == first_single_select(values@),
{
    let n = values.len();
    let mut i: usize = 0;
    assert(values@.subrange(0, n as int) =~= values@);
    while i < n
        invariant
            n == values.len(),
            i <= n,
            first_single_select(values@.subrange(i as int, n as int)) == first_single_select(
                values@,
            ),
        decreases n - i,
    {
        let ghost rest = values@.subrange(i as int, n as int);
        match &values[i] {
            FieldValue::ProjectV2ItemFieldSingleSelectValue { name } => {
                assert(rest[0] == values@[i as int]);
                return Some(name.clone());
            },
            FieldValue::Other => {
                assert(rest[0] == values@[i as int]);
                assert(rest.drop_first() =~= values@.subrange(i + 1, n as int));
            },
        }
        i += 1;
    }
    assert(values@.subrange(n as int, n as int) =~= Seq::<FieldValue>::empty());
    None
}

/// The ticket that one item shows (see `ticket_of_item`).
pub fn ticket_from_item(item: &ItemNode) -> (r: Option<Ticket>)
    ensures
        match r {
            Some(t) => ticket_of_item(*item) == Some(t@),
            None => ticket_of_item(*item) is None,
        },
{
    match &item.content {
        None => None,
        Some(c) => {
            let f = match c {
                Content::Issue(f) => f,
                Content::PullRequest(f) => f,
            };
            let status = first_status(&item.field_values.nodes);
            Some(
                Ticket {
                    id: f.id.clone(),
                    title: f.title.clone(),
                    number: f.number,
                    status,
                    repository: Some(f.repository.name.clone()),
                    state: f.state.clone(),
                },
            )
        },
    }
}

/// The tickets of a list of items (see `tickets_of_items`).
pub fn tickets_from_items(items: &Vec<ItemNode>) -> (r: Vec<Ticket>)
    ensures
        r@.map_values(|t: Ticket| t@) == tickets_of_items(items@),
{
    let mut out: Vec<Ticket> = Vec::new();
    let n = items.len();
    let mut i: usize = 0;
    while i < n
        invariant
            n == items.len(),
            i <= n,
            out@.map_values(|t: Ticket| t@) == tickets_of_items(items@.take(i as int)),
        decreases n - i,
    {
        let ghost prev = out@;
        assert(items@.take(i + 1).drop_last() =~= items@.take(i as int));
        assert(items@.take(i + 1).last() == items@[i as int]);
        match ticket_from_item(&items[i]) {
            Some(t) => {
                out.push(t);
                assert(out@.map_values(|t: Ticket| t@) =~= prev.map_values(|t: Ticket| t@).push(
                    out@[out@.len() - 1]@,
                ));
            },
            None => {},
        }
        i += 1;
    }
    assert(items@.take(n as int) =~= items@);
    out
}

/// The tickets of the items query: the project must have been found.
pub fn tickets_from_data(data: &ItemsData) -> (r: Result<Vec<Ticket>, AppError>)
    ensures
        match data.node {
            Some(node) => r matches Ok(ts) && ts@.map_values(|t: Ticket| t@) == tickets_of_items(
                node.items.nodes@,
            ),
            None => r matches Err(e) && e@ == AppErrorView::GitHub("Project not found"@),
        },
{
    match &data.node {
        Some(node) => Ok(tickets_from_items(&node.items.nodes)),
        None => Err(AppError::github("Project not found")),
    }
}

} // verus!
