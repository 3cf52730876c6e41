//! Properties of how an items answer becomes tickets.
use vstd::prelude::*;

use crate::github::response::{
    first_single_select, project_of_node, ticket_of_item, tickets_of_items, Content, FieldValue,
    ItemNode, ProjectNode,
};

verus! {

/// There are never more tickets than items.
pub proof fn law_tickets_at_most_items(items: Seq<ItemNode>)
    ensures
        tickets_of_items(items).len() <= items.len(),
    decreases items.len(),
{
    if items.len() > 0 {
        law_tickets_at_most_items(items.drop_last());
    }
}

/// The items are read in order: the tickets of two runs of items, one
/// after the other, are those of the first run followed by those of the
/// second.
pub proof fn law_tickets_of_concatenation(a: Seq<ItemNode>, b: Seq<ItemNode>)
    ensures
        tickets_of_items(a + b) == tickets_of_items(a) + tickets_of_items(b),
    decreases b.len(),
{
    if b.len() == 0 {
        assert(a + b =~= a);
        assert(tickets_of_items(a) + tickets_of_items(b) =~= tickets_of_items(a));
    } else {
        law_tickets_of_concatenation(a, b.drop_last());
        assert((a + b).drop_last() =~= a + b.drop_last());
        assert((a + b).last() == b.last());
        match ticket_of_item(b.last()) {
            Some(t) => {
                assert(tickets_of_items(a) + tickets_of_items(b) =~= (tickets_of_items(a)
                    + tickets_of_items(b.drop_last())).push(t));
            },
            None => {},
        }
    }
}

/// When every item has content, there is one ticket per item, each the
/// ticket of the item at the same place.
pub proof fn law_one_ticket_per_item(items: Seq<ItemNode>)
    requires
        forall|i: int| 0 <= i < items.len() ==> (#[trigger] items[i]).content is Some,
    ensures
        tickets_of_items(items).len() == items.len(),
        forall|i: int|
            0 <= i < items.len() ==> ticket_of_item(#[trigger] items[i]) == Some(
                tickets_of_items(items)[i],
            ),
    decreases items.len(),
{
    if items.len() > 0 {
        let rest = items.drop_last();
        assert forall|i: int| 0 <= i < rest.len() implies (#[trigger] rest[i]).content is Some by {
            assert(rest[i] == items[i]);
        }
        law_one_ticket_per_item(rest);
        assert(items.last() == items[items.len() - 1]);
        assert forall|i: int| 0 <= i < items.len() implies ticket_of_item(#[trigger] items[i])
            == Some(tickets_of_items(items)[i]) by {
            if i < items.len() - 1 {
                assert(rest[i] == items[i]);
            }
        }
    }
}

/// An item's status is its first single-select value: values of other
/// kinds before it do not matter, and later choices are ignored.
pub proof fn law_status_is_first_choice(values: Seq<FieldValue>, k: int)
    requires
        0 <= k < values.len(),
        values[k] is ProjectV2ItemFieldSingleSelectValue,
        forall|j: int| 0 <= j < k ==> (#[trigger] values[j]) is Other,
    ensures
        first_single_select(values) == Some(values[k]->name@),
    decreases k,
{
    if k > 0 {
        let rest = values.drop_first();
        assert forall|j: int| 0 <= j < k - 1 implies (#[trigger] rest[j]) is Other by {
            assert(rest[j] == values[j + 1]);
        }
        assert(values[0] is Other);
        law_status_is_first_choice(rest, k - 1);
    }
}

/// An item has no status when none of its field values is a single-select
/// value.
pub proof fn law_no_choice_no_status(values: Seq<FieldValue>)
    requires
        forall|j: int| 0 <= j < values.len() ==> (#[trigger] values[j]) is Other,
    ensures
        first_single_select(values) is None,
    decreases values.len(),
{
    if values.len() > 0 {
        let rest = values.drop_first();
        assert forall|j: int| 0 <= j < rest.len() implies (#[trigger] rest[j]) is Other by {
            assert(rest[j] == values[j + 1]);
        }
        assert(values[0] is Other);
        law_no_choice_no_status(rest);
    }
}

/// The ticket of an item with content, whether an issue or a pull request,
/// carries the content's identifier, title, number and state, the name of
/// its repository, and as status the name of the item's first single-select
/// value (none when it has no such value). An item without content has no
/// ticket.
pub proof fn law_ticket_of_item(item: ItemNode, k: int)
    ensures
        item.content is None ==> ticket_of_item(item) is None,
        item.content matches Some(c) ==> {
            let f = match c {
                Content::Issue(f) => f,
                Content::PullRequest(f) => f,
            };
            let values = item.field_values.nodes@;
            &&& ticket_of_item(item) matches Some(t) && t.id == f.id@ && t.title == f.title@
                && t.number == f.number as int && t.state == f.state@ && t.repository == Some(
                f.repository.name@,
            )
            &&& (forall|j: int| 0 <= j < values.len() ==> (#[trigger] values[j]) is Other)
                ==> ticket_of_item(item)->0.status is None
            &&& (0 <= k < values.len() && values[k] is ProjectV2ItemFieldSingleSelectValue
                && forall|j: int| 0 <= j < k ==> (#[trigger] values[j]) is Other)
                ==> ticket_of_item(item)->0.status == Some(values[k]->name@)
        },
{
    if item.content is Some {
        let values = item.field_values.nodes@;
        if forall|j: int| 0 <= j < values.len() ==> (#[trigger] values[j]) is Other {
            law_no_choice_no_status(values);
        }
        if 0 <= k < values.len() && values[k] is ProjectV2ItemFieldSingleSelectValue && forall|
            j: int,
        | 0 <= j < k ==> (#[trigger] values[j]) is Other {
            law_status_is_first_choice(values, k);
        }
    }
}

/// A project of the projects answer carries the node's identifier, title
/// and number.
pub proof fn law_project_of_node(n: ProjectNode)
    ensures
        project_of_node(n).id == n.id@,
        project_of_node(n).title == n.title@,
        project_of_node(n).number == n.number as int,
{
}

/// Each ticket of an items answer is the ticket of one item, and each item
/// with content gives one: every ticket is some item's.
pub proof fn law_every_ticket_from_an_item(items: Seq<ItemNode>, i: int)
    requires
        0 <= i < tickets_of_items(items).len(),
    ensures
        exists|j: int| 0 <= j < items.len() && ticket_of_item(#[trigger] items[j]) == Some(tickets_of_items(items)[i]),
    decreases items.len(),
{
    let rest = items.drop_last();
    let before = tickets_of_items(rest);
    if i < before.len() {
        law_every_ticket_from_an_item(rest, i);
        let j = choose|j: int| 0 <= j < rest.len() && ticket_of_item(#[trigger] rest[j]) == Some(before[i]);
        assert(rest[j] == items[j]);
    } else {
        assert(items[items.len() - 1] == items.last());
    }
}

} // verus!
