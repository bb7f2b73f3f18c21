use vstd::prelude::*;

use crate::model::{row_of, Task, TaskFields, TaskView};

verus! {

/// A statement that the task service issues to the store.
#[derive(Debug, Clone, PartialEq, Eq)]
pub enum StoreCall {
    /// Read every row.
    SelectAll,
    /// Insert a row with a fresh id, in the same step as checking that the
    /// table holds fewer than `ceiling` rows.
    InsertBelowCeiling { fields: TaskFields, ceiling: u64 },
    /// Overwrite every field but the id of the row with this id.
    UpdateById { id: u128, fields: TaskFields },
    /// Remove the row with this id.
    DeleteById { id: u128 },
}

/// What the store answers to a statement.
#[derive(Debug, Clone, PartialEq, Eq)]
pub enum StoreReply {
    /// The rows read.
    Rows(Vec<Task>),
    /// The row inserted, or `None` when the ceiling was reached.
    Inserted(Option<Task>),
    /// The row as updated, or `None` when no row had the id.
    Updated(Option<Task>),
    /// The number of rows removed.
    Deleted(u64),
    /// The statement did not complete and changed nothing.
    Failed,
}

/// No two rows share an id.
pub open spec fn ids_unique(rows: Seq<TaskView>) -> bool {
    forall|i: int, j: int|
        0 <= i < rows.len() && 0 <= j < rows.len() && i != j ==> #[trigger] rows[i].id
            != #[trigger] rows[j].id
}

/// Some row has this id.
pub open spec fn has_id(rows: Seq<TaskView>, id: u128) -> bool {
    exists|i: int| 0 <= i < rows.len() && #[trigger] rows[i].id == id
}

/// The views of a list of tasks.
pub open spec fn views(v: Seq<Task>) -> Seq<TaskView> {
    v.map_values(|t: Task| t@)
}

/// A completed statement: `call` took the table from `rows` to `after` and
/// answered `reply`.
pub open spec fn gateway_step(
    rows: Seq<TaskView>,
    call: StoreCall,
    after: Seq<TaskView>,
    reply: StoreReply,
) -> bool {
    match call {
        StoreCall::SelectAll => after == rows && (reply matches StoreReply::Rows(v) && views(v@)
            == rows),
        StoreCall::InsertBelowCeiling { fields, ceiling } => if rows.len() < ceiling {
            reply matches StoreReply::Inserted(Some(t)) && t@ == row_of(t.id, fields) && !has_id(
                rows,
                t.id,
            ) && after == rows.push(t@)
        } else {
            reply == StoreReply::Inserted(None) && after == rows
        },
        StoreCall::UpdateById { id, fields } => if has_id(rows, id) {
            reply matches StoreReply::Updated(Some(t)) && t@ == row_of(id, fields) && exists|
                i: int,
            |
                0 <= i < rows.len() && #[trigger] rows[i].id == id && after == rows.update(i, t@)
        } else {
            reply == StoreReply::Updated(None) && after == rows
        },
        StoreCall::DeleteById { id } => if has_id(rows, id) {
            reply == StoreReply::Deleted(1) && exists|i: int|
                0 <= i < rows.len() && #[trigger] rows[i].id == id && after == rows.remove(i)
        } else {
            reply == StoreReply::Deleted(0) && after == rows
        },
    }
}

/// What a store may do with a statement: complete it, or fail and change nothing.
pub open spec fn store_step(
    rows: Seq<TaskView>,
    call: StoreCall,
    after: Seq<TaskView>,
    reply: StoreReply,
) -> bool {
    gateway_step(rows, call, after, reply) || (reply == StoreReply::Failed && after == rows)
}

/// A task table held in memory. Ids are handed out from a counter, so none
/// is ever reused.
pub struct TaskTable {
    rows: Vec<Task>,
    next_id: u128,
}

impl View for TaskTable {
    type V = Seq<TaskView>;

    closed spec fn view(&self) -> Seq<TaskView> {
        views(self.rows@)
    }
}

impl TaskTable {
    /// The id the next insert will take.
    pub closed spec fn next_fresh(&self) -> u128 {
        self.next_id
    }

    /// Ids are unique and all below the next id to hand out.
    pub closed spec fn wf(&self) -> bool {
        &&& ids_unique(self@)
        &&& forall|i: int| 0 <= i < self@.len() ==> #[trigger] self@[i].id < self.next_id
    }

    /// An empty table.
    pub fn new() -> (t: TaskTable)
        ensures
            t.wf(),
            t@ == Seq::<TaskView>::empty(),
    {
        let t = TaskTable { rows: Vec::new(), next_id: 0 };
        assert(t@ =~= Seq::<TaskView>::empty());
        t
    }

    /// The number of rows.
    pub fn len(&self) -> (r: usize)
        ensures
            r == self@.len(),
    {
        self.rows.len()
    }

    /// The position of the row with this id, if any.
    fn position_of(&self, id: u128) -> (r: Option<usize>)
        requires
            self.wf(),
        ensures
            r matches Some(i) ==> i < self@.len() && self@[i as int].id == id,
            r is None ==> !has_id(self@, id),
    {
        let mut k: usize = 0;
        while k < self.rows.len()
            invariant
                k <= self.rows@.len(),
                self@.len() == self.rows@.len(),
                forall|j: int| 0 <= j < k ==> #[trigger] self@[j].id != id,
            decreases self.rows@.len() - k,
        {
            if self.rows[k].id == id {
                return Some(k);
            }
            k += 1;
        }
        None
    }

    /// A copy of every row, in table order.
    fn select_all(&self) -> (r: Vec<Task>)
        ensures
            views(r@) == self@,
    {
        let mut out: Vec<Task> = Vec::new();
        let mut k: usize = 0;
        while k < self.rows.len()
            invariant
                k <= self.rows@.len(),
                out@.len() == k,
                forall|j: int| 0 <= j < k ==> (#[trigger] out@[j])@ == self.rows@[j]@,
            decreases self.rows@.len() - k,
        {
            out.push(self.rows[k].duplicate());
            k += 1;
        }
        assert(views(out@) =~= self@);
        out
    }

    /// Carries out a statement. It completes unless the ids are used up, which
    /// fails an insert. Each insert takes the next id of a counter that only
    /// grows, so an id is never handed out twice.
    pub fn execute(&mut self, call: &StoreCall) -> (reply: StoreReply)
        requires
            old(self).wf(),
        ensures
            final(self).wf(),
            store_step(old(self)@, *call, final(self)@, reply),
            reply == StoreReply::Failed ==> old(self).next_fresh() == u128::MAX,
            final(self).next_fresh() >= old(self).next_fresh(),
            reply matches StoreReply::Inserted(Some(t)) ==> t.id == old(self).next_fresh()
                && final(self).next_fresh() > t.id,
    {
        match call {
            StoreCall::SelectAll => StoreReply::Rows(self.select_all()),
            StoreCall::InsertBelowCeiling { fields, ceiling } => {
                if self.rows.len() as u64 >= *ceiling {
                    return StoreReply::Inserted(None);
                }
                if self.next_id == u128::MAX {
                    return StoreReply::Failed;
                }
                let t = Task {
                    id: self.next_id,
                    title: fields.title.clone(),
                    completed: fields.completed,
                    due_date: fields.due_date,
                };
                let ghost before = self@;
                self.rows.push(t.duplicate());
                self.next_id = self.next_id + 1;
                assert(self@ =~= before.push(t@));
                StoreReply::Inserted(Some(t))
            },
            StoreCall::UpdateById { id, fields } => {
                match self.position_of(*id) {
                    None => StoreReply::Updated(None),
                    Some(i) => {
                        let t = Task {
                            id: *id,
                            title: fields.title.clone(),
                            completed: fields.completed,
                            due_date: fields.due_date,
                        };
                        let ghost before = self@;
                        self.rows.set(i, t.duplicate());
                        assert(self@ =~= before.update(i as int, t@));
                        StoreReply::Updated(Some(t))
                    },
                }
            },
            StoreCall::DeleteById { id } => {
                match self.position_of(*id) {
                    None => StoreReply::Deleted(0),
                    Some(i) => {
                        let ghost before = self@;
                        self.rows.remove(i);
                        assert(self@ =~= before.remove(i as int));
                        StoreReply::Deleted(1)
                    },
                }
            },
        }
    }
}

} // verus!
