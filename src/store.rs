use vstd::prelude::*;
use crate::item::{TodoItem, TodoRecord, records};

verus! {

/// The list after one Create: a new, uncompleted record whose id is the
/// former length plus one.
pub open spec fn created(list: Seq<TodoRecord>, description: Seq<char>) -> Seq<TodoRecord> {
    list.push(TodoRecord { id: list.len() + 1, description, completed: false })
}

/// The list after a Create for each description, in order.
pub open spec fn created_all(list: Seq<TodoRecord>, descriptions: Seq<Seq<char>>) -> Seq<TodoRecord>
    decreases descriptions.len(),
{
    if descriptions.len() == 0 {
        list
    } else {
        let last = descriptions.len() - 1;
        created(created_all(list, descriptions.take(last)), descriptions[last])
    }
}

/// `k` is the position of the first record that carries `id`.
pub open spec fn is_first_with_id(list: Seq<TodoRecord>, id: nat, k: int) -> bool {
    &&& 0 <= k < list.len()
    &&& list[k].id == id
    &&& forall|j: int| 0 <= j < k ==> list[j].id != id
}

/// Some record carries `id`.
pub open spec fn has_id(list: Seq<TodoRecord>, id: nat) -> bool {
    exists|k: int| 0 <= k < list.len() && list[k].id == id
}

/// `after` is `before` with one new, uncompleted task appended, whose id is
/// the former length plus one.
pub open spec fn creates(before: Seq<TodoItem>, after: Seq<TodoItem>, description: Seq<char>) -> bool {
    &&& records(after) == created(records(before), description)
    &&& after.take(before.len() as int) == before
}

/// `found` says whether some task of `before` carries `id`; if one does, `after`
/// is `before` with the first such task marked completed, and otherwise
/// `after` is `before`.
pub open spec fn completes(before: Seq<TodoItem>, after: Seq<TodoItem>, id: u32, found: bool) -> bool {
    &&& found == has_id(records(before), id as nat)
    &&& !found ==> after == before
    &&& found ==> exists|k: int|
        #![trigger before[k]]
        is_first_with_id(records(before), id as nat, k) && after == before.update(
            k,
            TodoItem { id: before[k].id, description: before[k].description, completed: true },
        )
}

/// Appends a new task with id `length + 1`, not completed.
pub fn add_todo_item(todo_list: &mut Vec<TodoItem>, description: &str)
    requires
        old(todo_list)@.len() < u32::MAX,
    ensures
        creates(old(todo_list)@, final(todo_list)@, description@),
{
    let new_id: u32 = todo_list.len() as u32 + 1;
    let new_todo_item = TodoItem::new(new_id, description);
    todo_list.push(new_todo_item);
    proof {
        assert(final(todo_list)@.take(old(todo_list)@.len() as int) =~= old(todo_list)@);
        assert(records(final(todo_list)@) =~= created(records(old(todo_list)@), description@));
    }
}

/// Marks the first task with `id` as completed. Returns whether one was found;
/// when none was, the list is left as it was.
pub fn mark_todo_as_completed(todo_list: &mut Vec<TodoItem>, id: u32) -> (found: bool)
    ensures
        completes(old(todo_list)@, final(todo_list)@, id, found),
{
    let ghost before = todo_list@;
    let mut i: usize = 0;
    while i < todo_list.len()
        invariant
            todo_list@ == before,
            before == old(todo_list)@,
            0 <= i <= before.len(),
            forall|j: int| 0 <= j < i ==> before[j].id != id,
        decreases before.len() - i,
    {
        if todo_list[i].id == id {
            todo_list[i].completed = true;
            proof {
                assert(records(before)[i as int].id == id as nat);
                assert(has_id(records(before), id as nat));
                assert(is_first_with_id(records(before), id as nat, i as int) && todo_list@
                    == before.update(
                    i as int,
                    TodoItem {
                        id: before[i as int].id,
                        description: before[i as int].description,
                        completed: true,
                    },
                ));
            }
            return true;
        }
        i = i + 1;
    }
    proof {
        assert forall|k: int| 0 <= k < records(before).len() implies records(before)[k].id != id as nat by {
            assert(before[k].id != id);
        }
    }
    false
}

/// Creates from an empty list number the tasks `1..=n` in the order of
/// creation, each with its description and not completed.
pub proof fn lemma_created_ids_count_from_one(descriptions: Seq<Seq<char>>)
    ensures
        created_all(Seq::empty(), descriptions).len() == descriptions.len(),
        forall|i: int|
            0 <= i < descriptions.len() ==> #[trigger] created_all(Seq::empty(), descriptions)[i]
                == (TodoRecord { id: (i + 1) as nat, description: descriptions[i], completed: false }),
    decreases descriptions.len(),
{
    if descriptions.len() > 0 {
        let last = descriptions.len() - 1;
        let prefix = descriptions.take(last);
        lemma_created_ids_count_from_one(prefix);
        assert forall|i: int| 0 <= i < last implies prefix[i] == descriptions[i] by {}
    }
}

} // verus!
