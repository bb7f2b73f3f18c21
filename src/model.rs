use vstd::prelude::*;

verus! {

/// One billion: the nanoseconds in a second.
pub const NANOS_PER_SECOND: u32 = 1_000_000_000;

/// An instant in UTC: whole seconds since the Unix epoch and the nanoseconds
/// past that second.
#[derive(Debug, Clone, Copy, PartialEq, Eq, Structural)]
pub struct Timestamp {
    pub secs: i64,
    pub nanos: u32,
}

impl Timestamp {
    /// The nanoseconds stay below one second.
    pub open spec fn wf(&self) -> bool {
        self.nanos < NANOS_PER_SECOND
    }

    /// Builds an instant from its parts, refusing a nanosecond count of a
    /// second or more.
    pub fn from_parts(secs: i64, nanos: u32) -> (r: Option<Timestamp>)
        ensures
            r matches Some(t) ==> t.wf() && t.secs == secs && t.nanos == nanos,
            r is None <==> nanos >= NANOS_PER_SECOND,
    {
        if nanos < NANOS_PER_SECOND {
            Some(Timestamp { secs, nanos })
        } else {
            None
        }
    }
}

/// A stored task. Its id is the 128-bit value of the unique identifier that
/// the store assigned.
#[derive(Debug, Clone, PartialEq, Eq)]
pub struct Task {
    pub id: u128,
    pub title: String,
    pub completed: bool,
    pub due_date: Option<Timestamp>,
}

/// The mathematical value of a task.
pub struct TaskView {
    pub id: u128,
    pub title: Seq<char>,
    pub completed: bool,
    pub due_date: Option<Timestamp>,
}

impl View for Task {
    type V = TaskView;

    open spec fn view(&self) -> TaskView {
        TaskView {
            id: self.id,
            title: self.title@,
            completed: self.completed,
            due_date: self.due_date,
        }
    }
}

impl Task {
    /// A copy of the task.
    pub fn duplicate(&self) -> (r: Task)
        ensures
            r@ == self@,
    {
        Task {
            id: self.id,
            title: self.title.clone(),
            completed: self.completed,
            due_date: self.due_date,
        }
    }
}

/// The body of a create or update request. `completed` and `due_date` may be
/// left out.
#[derive(Debug, Clone, PartialEq, Eq)]
pub struct CreateTaskInput {
    pub title: String,
    pub completed: Option<bool>,
    pub due_date: Option<Timestamp>,
}

/// Every field of a task but its id, as written by a create or an update.
#[derive(Debug, Clone, PartialEq, Eq)]
pub struct TaskFields {
    pub title: String,
    pub completed: bool,
    pub due_date: Option<Timestamp>,
}

/// The fields that a request body writes: `completed` is `false` when left out.
pub open spec fn fields_of(input: CreateTaskInput) -> TaskFields {
    TaskFields {
        title: input.title,
        completed: match input.completed {
            Some(b) => b,
            None => false,
        },
        due_date: input.due_date,
    }
}

/// The row that holds `fields` under `id`.
pub open spec fn row_of(id: u128, fields: TaskFields) -> TaskView {
    TaskView { id, title: fields.title@, completed: fields.completed, due_date: fields.due_date }
}

impl CreateTaskInput {
    /// The fields this body writes, with `completed` defaulting to `false`.
    pub fn into_fields(self) -> (r: TaskFields)
        ensures
            r == fields_of(self),
    {
        let completed = match self.completed {
            Some(b) => b,
            None => false,
        };
        TaskFields { title: self.title, completed, due_date: self.due_date }
    }
}

} // verus!
