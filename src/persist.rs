use vstd::prelude::*;
use crate::item::TodoItem;

verus! {

/// Why no saved list could be loaded.
#[derive(PartialEq, Eq, Structural, Debug, Clone, Copy)]
pub enum LoadError {
    /// No file at the path: the normal state of a first run.
    NotFound,
    /// The file exists but could not be read.
    Unreadable,
    /// The file was read but does not hold a list of tasks.
    Malformed,
}

/// The list a session starts from: the loaded list, or an empty one when
/// nothing could be loaded, whatever the reason.
pub fn initial_todo_list(loaded: Result<Vec<TodoItem>, LoadError>) -> (r: Vec<TodoItem>)
    ensures
        match loaded {
            Ok(items) => r@ == items@,
            Err(_) => r@.len() == 0,
        },
{
    match loaded {
        Ok(items) => items,
        Err(_) => Vec::new(),
    }
}

} // verus!
