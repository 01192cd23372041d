use vstd::prelude::*;

verus! {

/// The mathematical content of a task: its id, its description and its flag.
pub struct TodoRecord {
    pub id: nat,
    pub description: Seq<char>,
    pub completed: bool,
}

/// A single task record.
pub struct TodoItem {
    pub id: u32,
    pub description: String,
    pub completed: bool,
}

impl View for TodoItem {
    type V = TodoRecord;

    open spec fn view(&self) -> TodoRecord {
        TodoRecord { id: self.id as nat, description: self.description@, completed: self.completed }
    }
}

/// The records of a sequence of items, in order.
pub open spec fn records(items: Seq<TodoItem>) -> Seq<TodoRecord> {
    items.map_values(|item: TodoItem| item@)
}

impl TodoItem {
    /// A task that is not yet completed.
    pub fn new(id: u32, description: &str) -> (r: TodoItem)
        ensures
            r@ == (TodoRecord { id: id as nat, description: description@, completed: false }),
    {
        TodoItem { id, description: String::from_str(description), completed: false }
    }
}

} // verus!
