use vstd::prelude::*;
use crate::item::{TodoItem, TodoRecord};
use crate::text::{decimal, decimal_string};

verus! {

pub open spec fn bool_text(b: bool) -> Seq<char> {
    if b {
        "true"@
    } else {
        "false"@
    }
}

/// The line shown for a record at a 1-based display position:
/// `<position>. <description>: Completed: <true|false>`.
pub open spec fn row_text(position: nat, record: TodoRecord) -> Seq<char> {
    decimal(position) + ". "@ + record.description + ": Completed: "@ + bool_text(record.completed)
}

/// The line shown for `item` at display position `position`.
pub fn format_row(position: usize, item: &TodoItem) -> (r: String)
    ensures
        r@ == row_text(position as nat, item@),
{
    let mut line = decimal_string(position);
    line.append(". ");
    line.append(item.description.as_str());
    line.append(": Completed: ");
    if item.completed {
        line.append("true");
    } else {
        line.append("false");
    }
    line
}

/// One line per task, in list order, numbered by position from 1.
pub fn display_todo_list(todo_list: &[TodoItem]) -> (rows: Vec<String>)
    ensures
        rows@.len() == todo_list@.len(),
        forall|i: int|
            0 <= i < todo_list@.len() ==> #[trigger] rows@[i]@ == row_text(
                (i + 1) as nat,
                todo_list@[i]@,
            ),
{
    let mut rows: Vec<String> = Vec::new();
    let mut i: usize = 0;
    while i < todo_list.len()
        invariant
            0 <= i <= todo_list@.len(),
            rows@.len() == i,
            forall|j: int|
                0 <= j < i ==> #[trigger] rows@[j]@ == row_text((j + 1) as nat, todo_list@[j]@),
        decreases todo_list@.len() - i,
    {
        let line = format_row(i + 1, &todo_list[i]);
        rows.push(line);
        i = i + 1;
    }
    rows
}

} // verus!
