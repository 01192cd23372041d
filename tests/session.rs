use todo_list::item::TodoItem;
use todo_list::session::{read_action, step, MenuAction, Reply, SessionState};

#[test]
fn menu_lines_select_actions() {
    assert_eq!(read_action("1\n"), MenuAction::Create);
    assert_eq!(read_action("2\r\n"), MenuAction::Complete);
    assert_eq!(read_action("3  \t\n"), MenuAction::Display);
    assert_eq!(read_action("4"), MenuAction::Exit);
}

#[test]
fn other_lines_are_invalid_actions() {
    assert_eq!(read_action("5\n"), MenuAction::Invalid);
    assert_eq!(read_action(" 1\n"), MenuAction::Invalid);
    assert_eq!(read_action("12\n"), MenuAction::Invalid);
    assert_eq!(read_action("\n"), MenuAction::Invalid);
    assert_eq!(read_action(""), MenuAction::Invalid);
}

#[test]
fn session_runs_a_full_round() {
    let mut list: Vec<TodoItem> = Vec::new();
    let (s, r) = step(SessionState::AwaitingCommand, &mut list, "1\n");
    assert_eq!(s, SessionState::AwaitingDescription);
    assert!(matches!(r, Reply::AskDescription));
    let (s, r) = step(s, &mut list, "Buy milk  \n");
    assert_eq!(s, SessionState::AwaitingCommand);
    assert!(matches!(r, Reply::Added));
    assert_eq!(list[0].description, "Buy milk");
    assert_eq!(list[0].id, 1);
    let (s, _) = step(s, &mut list, "1\n");
    let (s, _) = step(s, &mut list, "Walk dog\n");
    let (s, r) = step(s, &mut list, "2\n");
    assert_eq!(s, SessionState::AwaitingId);
    assert!(matches!(r, Reply::AskId));
    let (s, r) = step(s, &mut list, "1\n");
    assert_eq!(s, SessionState::AwaitingCommand);
    assert!(matches!(r, Reply::Completed(1)));
    let (s, r) = step(s, &mut list, "3\n");
    assert_eq!(s, SessionState::AwaitingCommand);
    match r {
        Reply::Listing(rows) => assert_eq!(
            rows,
            vec!["1. Buy milk: Completed: true".to_string(), "2. Walk dog: Completed: false".to_string()]
        ),
        _ => panic!("expected a listing"),
    }
    let (s, r) = step(s, &mut list, "4\n");
    assert_eq!(s, SessionState::Finished);
    assert!(matches!(r, Reply::Exit));
    let (s, r) = step(s, &mut list, "1\n");
    assert_eq!(s, SessionState::Finished);
    assert!(matches!(r, Reply::Exit));
    assert_eq!(list.len(), 2);
}

#[test]
fn unknown_id_is_reported_not_found() {
    let mut list = vec![TodoItem::new(1, "a")];
    let (s, r) = step(SessionState::AwaitingId, &mut list, "+7\n");
    assert_eq!(s, SessionState::AwaitingCommand);
    assert!(matches!(r, Reply::NotFound(7)));
    assert!(!list[0].completed);
}

#[test]
fn non_integer_id_is_invalid() {
    let mut list = vec![TodoItem::new(1, "a")];
    for line in ["abc\n", "-1\n", "4294967296\n", "\n", "+\n", " 1\n"] {
        let (s, r) = step(SessionState::AwaitingId, &mut list, line);
        assert_eq!(s, SessionState::AwaitingCommand);
        assert!(matches!(r, Reply::InvalidId));
    }
    assert!(!list[0].completed);
}

#[test]
fn largest_id_parses() {
    let mut list = vec![TodoItem::new(4294967295, "a")];
    let (_, r) = step(SessionState::AwaitingId, &mut list, "4294967295\r\n");
    assert!(matches!(r, Reply::Completed(4294967295)));
    assert!(list[0].completed);
}

#[test]
fn invalid_action_keeps_state() {
    let mut list: Vec<TodoItem> = Vec::new();
    let (s, r) = step(SessionState::AwaitingCommand, &mut list, "x\n");
    assert_eq!(s, SessionState::AwaitingCommand);
    assert!(matches!(r, Reply::InvalidAction));
    assert!(list.is_empty());
}

#[test]
fn listing_empty_list_gives_no_rows() {
    let mut list: Vec<TodoItem> = Vec::new();
    let (_, r) = step(SessionState::AwaitingCommand, &mut list, "3\n");
    match r {
        Reply::Listing(rows) => assert!(rows.is_empty()),
        _ => panic!("expected a listing"),
    }
}
