use vstd::prelude::*;
use crate::item::TodoItem;
use crate::display::{display_todo_list, row_text};
use crate::store::{add_todo_item, creates, completes, mark_todo_as_completed};
use crate::text::{parsed_u32, parse_u32, trim_end, trimmed_end};

verus! {

/// A choice from the main menu.
#[derive(PartialEq, Eq, Structural, Debug, Clone, Copy)]
pub enum MenuAction {
    Create,
    Complete,
    Display,
    Exit,
    Invalid,
}

/// Where the interactive session stands: what the next line of input is for.
#[derive(PartialEq, Eq, Structural, Debug, Clone, Copy)]
pub enum SessionState {
    AwaitingCommand,
    AwaitingDescription,
    AwaitingId,
    Finished,
}

/// What the session answers to a line of input.
pub enum Reply {
    /// Ask for the description of a new task.
    AskDescription,
    /// Ask for the id of the task to complete.
    AskId,
    /// A task was added.
    Added,
    /// The task with this id was marked completed.
    Completed(u32),
    /// No task carries this id.
    NotFound(u32),
    /// The id line was not an integer.
    InvalidId,
    /// The lines to show for the list.
    Listing(Vec<String>),
    /// The line named no menu action.
    InvalidAction,
    /// The session is over.
    Exit,
}

/// The menu action that a trimmed input line selects.
pub open spec fn action_of(t: Seq<char>) -> MenuAction {
    if t == seq!['1'] {
        MenuAction::Create
    } else if t == seq!['2'] {
        MenuAction::Complete
    } else if t == seq!['3'] {
        MenuAction::Display
    } else if t == seq!['4'] {
        MenuAction::Exit
    } else {
        MenuAction::Invalid
    }
}

/// The menu action that an input line selects, trailing white space aside.
pub fn read_action(line: &str) -> (a: MenuAction)
    ensures
        a == action_of(trimmed_end(line@)),
{
    let t = trim_end(line);
    if t.unicode_len() != 1 {
        return MenuAction::Invalid;
    }
    let c = t.get_char(0);
    proof {
        assert(t@.len() == 1 && t@[0] == c);
        assert(t@ =~= seq![c]);
    }
    if c == '1' {
        MenuAction::Create
    } else if c == '2' {
        MenuAction::Complete
    } else if c == '3' {
        MenuAction::Display
    } else if c == '4' {
        MenuAction::Exit
    } else {
        proof {
            assert(t@ != seq!['1'] && t@ != seq!['2'] && t@ != seq!['3'] && t@ != seq!['4']) by {
                if t@ == seq!['1'] || t@ == seq!['2'] || t@ == seq!['3'] || t@ == seq!['4'] {
                    assert(t@[0] == c);
                }
            }
        }
        MenuAction::Invalid
    }
}

/// The state that follows a menu action.
pub open spec fn state_after(a: MenuAction) -> SessionState {
    match a {
        MenuAction::Create => SessionState::AwaitingDescription,
        MenuAction::Complete => SessionState::AwaitingId,
        MenuAction::Exit => SessionState::Finished,
        _ => SessionState::AwaitingCommand,
    }
}

/// One step of the interactive session: takes the current state and the next
/// line of input, updates the list, and returns the next state and the reply.
pub fn step(state: SessionState, todo_list: &mut Vec<TodoItem>, line: &str) -> (out: (
    SessionState,
    Reply,
))
    requires
        state == SessionState::AwaitingDescription ==> old(todo_list)@.len() < u32::MAX,
    ensures
        state == SessionState::AwaitingCommand ==> {
            let a = action_of(trimmed_end(line@));
            &&& final(todo_list)@ == old(todo_list)@
            &&& out.0 == state_after(a)
            &&& a == MenuAction::Create ==> out.1 is AskDescription
            &&& a == MenuAction::Complete ==> out.1 is AskId
            &&& a == MenuAction::Exit ==> out.1 is Exit
            &&& a == MenuAction::Invalid ==> out.1 is InvalidAction
            &&& a == MenuAction::Display ==> {
                &&& out.1 is Listing
                &&& out.1->Listing_0@.len() == old(todo_list)@.len()
                &&& forall|i: int|
                    0 <= i < old(todo_list)@.len() ==> #[trigger] out.1->Listing_0@[i]@
                        == row_text((i + 1) as nat, old(todo_list)@[i]@)
            }
        },
        state == SessionState::AwaitingDescription ==> {
            &&& creates(old(todo_list)@, final(todo_list)@, trimmed_end(line@))
            &&& out.0 == SessionState::AwaitingCommand
            &&& out.1 is Added
        },
        state == SessionState::AwaitingId ==> {
            &&& out.0 == SessionState::AwaitingCommand
            &&& match parsed_u32(trimmed_end(line@)) {
                None => final(todo_list)@ == old(todo_list)@ && out.1 is InvalidId,
                Some(id) => {
                    ||| out.1 == Reply::Completed(id) && completes(
                        old(todo_list)@,
                        final(todo_list)@,
                        id,
                        true,
                    )
                    ||| out.1 == Reply::NotFound(id) && completes(
                        old(todo_list)@,
                        final(todo_list)@,
                        id,
                        false,
                    )
                },
            }
        },
        state == SessionState::Finished ==> {
            &&& final(todo_list)@ == old(todo_list)@
            &&& out.0 == SessionState::Finished
            &&& out.1 is Exit
        },
{
    match state {
        SessionState::AwaitingCommand => {
            let a = read_action(line);
            let reply = match a {
                MenuAction::Create => Reply::AskDescription,
                MenuAction::Complete => Reply::AskId,
                MenuAction::Display => Reply::Listing(display_todo_list(todo_list.as_slice())),
                MenuAction::Exit => Reply::Exit,
                MenuAction::Invalid => Reply::InvalidAction,
            };
            let next = match a {
                MenuAction::Create => SessionState::AwaitingDescription,
                MenuAction::Complete => SessionState::AwaitingId,
                MenuAction::Exit => SessionState::Finished,
                _ => SessionState::AwaitingCommand,
            };
            (next, reply)
        },
        SessionState::AwaitingDescription => {
            add_todo_item(todo_list, trim_end(line));
            (SessionState::AwaitingCommand, Reply::Added)
        },
        SessionState::AwaitingId => {
            match parse_u32(trim_end(line)) {
                None => (SessionState::AwaitingCommand, Reply::InvalidId),
                Some(id) => {
                    if mark_todo_as_completed(todo_list, id) {
                        (SessionState::AwaitingCommand, Reply::Completed(id))
                    } else {
                        (SessionState::AwaitingCommand, Reply::NotFound(id))
                    }
                },
            }
        },
        SessionState::Finished => (SessionState::Finished, Reply::Exit),
    }
}

} // verus!
