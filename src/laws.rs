use vstd::prelude::*;

use crate::model::{fields_of, row_of, CreateTaskInput, TaskView};
use crate::service::{
    create_request, delete_request, list_request, outcome_of, request_result, update_request,
    Outcome, TaskError, MAX_TASKS,
};
use crate::table::{gateway_step, has_id, ids_unique, store_step, views, StoreReply};
use crate::task_id::identifier_value;

verus! {

/// A list reads back exactly the rows of the table, in table order, and
/// changes nothing.
pub proof fn lemma_list_shows_table(
    rows: Seq<TaskView>,
    after: Seq<TaskView>,
    reply: StoreReply,
)
    requires
        gateway_step(rows, list_request(), after, reply),
    ensures
        after == rows,
        match outcome_of(list_request(), reply) {
            Ok(Outcome::Listed(v)) => views(v@) == rows,
            _ => false,
        },
{
}

/// A valid create below the ceiling adds one row that holds the submitted
/// fields under an id no other row has, and a following list shows the old
/// rows and that one.
pub proof fn lemma_create_then_list(
    rows: Seq<TaskView>,
    input: CreateTaskInput,
    mid: Seq<TaskView>,
    reply: StoreReply,
    after: Seq<TaskView>,
    list_reply: StoreReply,
)
    requires
        ids_unique(rows),
        rows.len() < MAX_TASKS,
        input.title@.len() > 0,
        gateway_step(rows, create_request(input)->Ok_0, mid, reply),
        gateway_step(mid, list_request(), after, list_reply),
    ensures
        ids_unique(mid),
        match (request_result(create_request(input), reply), outcome_of(list_request(), list_reply)) {
            (Ok(Outcome::Created(t)), Ok(Outcome::Listed(v))) => {
                &&& t@ == row_of(t.id, fields_of(input))
                &&& !has_id(rows, t.id)
                &&& views(v@) == rows.push(t@)
                &&& forall|i: int|
                    0 <= i < views(v@).len() && (#[trigger] views(v@)[i]).id == t.id ==> i
                        == rows.len()
            },
            _ => false,
        },
{
    let t = reply->Inserted_0->Some_0;
    assert forall|i: int| 0 <= i < rows.len() implies #[trigger] rows[i].id != t.id by {
        if rows[i].id == t.id {
            assert(has_id(rows, t.id));
        }
    }
    assert forall|i: int, j: int|
        0 <= i < mid.len() && 0 <= j < mid.len() && i != j implies #[trigger] mid[i].id
        != #[trigger] mid[j].id by {
        if i < rows.len() && j < rows.len() {
            assert(mid[i] == rows[i] && mid[j] == rows[j]);
        }
    }
}

/// At the ceiling every create fails with an error the caller can correct,
/// and no row is added.
pub proof fn lemma_create_at_ceiling(
    rows: Seq<TaskView>,
    input: CreateTaskInput,
    after: Seq<TaskView>,
    reply: StoreReply,
)
    requires
        rows.len() == MAX_TASKS,
        create_request(input) is Ok ==> gateway_step(
            rows,
            create_request(input)->Ok_0,
            after,
            reply,
        ),
    ensures
        request_result(create_request(input), reply) matches Err(e) && e.is_client_error(),
        create_request(input) is Ok ==> after == rows,
{
}

/// Whatever the store does with a create, a table within the ceiling stays
/// within it.
pub proof fn lemma_create_keeps_ceiling(
    rows: Seq<TaskView>,
    input: CreateTaskInput,
    after: Seq<TaskView>,
    reply: StoreReply,
)
    requires
        rows.len() <= MAX_TASKS,
        create_request(input) is Ok,
        store_step(rows, create_request(input)->Ok_0, after, reply),
    ensures
        after.len() <= MAX_TASKS,
{
}

/// An update of an existing task replaces all of its fields but the id with
/// the submitted ones, and leaves every other row as it was.
pub proof fn lemma_update_replaces(
    rows: Seq<TaskView>,
    id: Seq<char>,
    v: u128,
    input: CreateTaskInput,
    after: Seq<TaskView>,
    reply: StoreReply,
)
    requires
        ids_unique(rows),
        identifier_value(id) == Some(v),
        has_id(rows, v),
        input.title@.len() > 0,
        gateway_step(rows, update_request(id, input)->Ok_0, after, reply),
    ensures
        ids_unique(after),
        after.len() == rows.len(),
        match request_result(update_request(id, input), reply) {
            Ok(Outcome::Updated(t)) => {
                &&& t@ == row_of(v, fields_of(input))
                &&& forall|i: int| 0 <= i < after.len() && #[trigger] after[i].id == v ==> after[i] == t@
                &&& forall|i: int| 0 <= i < rows.len() && #[trigger] rows[i].id != v ==> after[i] == rows[i]
            },
            _ => false,
        },
{
    let k = choose|k: int| 0 <= k < rows.len() && #[trigger] rows[k].id == v && after == rows.update(
        k,
        reply->Updated_0->Some_0@,
    );
    assert forall|i: int| 0 <= i < after.len() && #[trigger] after[i].id == v implies i == k by {
        if i != k {
            assert(rows[i].id == after[i].id);
        }
    }
    assert forall|i: int, j: int|
        0 <= i < after.len() && 0 <= j < after.len() && i != j implies #[trigger] after[i].id
        != #[trigger] after[j].id by {
        if i != k && j != k {
            assert(rows[i].id != rows[j].id);
        } else if i == k {
            assert(rows[j].id != rows[k].id);
        } else {
            assert(rows[i].id != rows[k].id);
        }
    }
}

/// An update or a delete with a malformed id fails with an error the caller
/// can correct, before any statement is issued.
pub proof fn lemma_malformed_id_refused(id: Seq<char>, input: CreateTaskInput)
    requires
        identifier_value(id) is None,
    ensures
        update_request(id, input) == Err::<crate::table::StoreCall, TaskError>(
            TaskError::InvalidInput,
        ),
        delete_request(id) == Err::<crate::table::StoreCall, TaskError>(TaskError::InvalidInput),
        TaskError::InvalidInput.is_client_error(),
{
}

/// An update with a well-formed id that no row has fails with an error the
/// caller can correct and leaves the table as it was.
pub proof fn lemma_update_unknown_id(
    rows: Seq<TaskView>,
    id: Seq<char>,
    v: u128,
    input: CreateTaskInput,
    after: Seq<TaskView>,
    reply: StoreReply,
)
    requires
        identifier_value(id) == Some(v),
        !has_id(rows, v),
        update_request(id, input) is Ok ==> gateway_step(
            rows,
            update_request(id, input)->Ok_0,
            after,
            reply,
        ),
    ensures
        request_result(update_request(id, input), reply) matches Err(e) && e.is_client_error(),
        update_request(id, input) is Ok ==> after == rows,
{
}

/// A delete with a well-formed id that no row has reports that the task was
/// not found and leaves the table as it was.
pub proof fn lemma_delete_unknown_id(
    rows: Seq<TaskView>,
    id: Seq<char>,
    v: u128,
    after: Seq<TaskView>,
    reply: StoreReply,
)
    requires
        identifier_value(id) == Some(v),
        !has_id(rows, v),
        gateway_step(rows, delete_request(id)->Ok_0, after, reply),
    ensures
        request_result(delete_request(id), reply) == Err::<Outcome, TaskError>(TaskError::NotFound),
        after == rows,
{
}

/// After a delete no row has the id, so a following list does not show it,
/// and deleting it again reports that it was not found and changes nothing.
pub proof fn lemma_delete_then_list(
    rows: Seq<TaskView>,
    id: Seq<char>,
    v: u128,
    mid: Seq<TaskView>,
    reply: StoreReply,
    listed: Seq<TaskView>,
    list_reply: StoreReply,
    after: Seq<TaskView>,
    again: StoreReply,
)
    requires
        ids_unique(rows),
        identifier_value(id) == Some(v),
        gateway_step(rows, delete_request(id)->Ok_0, mid, reply),
        gateway_step(mid, list_request(), listed, list_reply),
        gateway_step(listed, delete_request(id)->Ok_0, after, again),
    ensures
        has_id(rows, v) ==> request_result(delete_request(id), reply) == Ok::<Outcome, TaskError>(
            Outcome::Deleted,
        ),
        !has_id(mid, v),
        match outcome_of(list_request(), list_reply) {
            Ok(Outcome::Listed(l)) => forall|i: int|
                0 <= i < views(l@).len() ==> (#[trigger] views(l@)[i]).id != v,
            _ => false,
        },
        request_result(delete_request(id), again) == Err::<Outcome, TaskError>(TaskError::NotFound),
        after == mid,
{
    if has_id(rows, v) {
        let k = choose|k: int| 0 <= k < rows.len() && #[trigger] rows[k].id == v && mid == rows.remove(k);
        assert forall|i: int| 0 <= i < mid.len() implies #[trigger] mid[i].id != v by {
            if i < k {
                assert(rows[i].id != rows[k].id);
            } else {
                assert(mid[i] == rows[i + 1]);
                assert(rows[i + 1].id != rows[k].id);
            }
        }
    }
}

} // verus!
