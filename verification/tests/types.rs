use contextual_backend::json::{Json, Number};
use contextual_backend::types::clock::Timestamp;
use contextual_backend::types::get_str;
use contextual_backend::types::note::{NewNote, Note, NoteContext};
use contextual_backend::types::todo::{NewTodoItem, NewTodoItems, TodoItem};

fn object(members: Vec<(&str, Json)>) -> Json {
    Json::Object(members.into_iter().map(|(k, v)| (k.to_string(), v)).collect())
}

fn context_doc() -> Json {
    object(vec![
        ("filename", Json::text("test_file.rs")),
        ("project_dir", Json::text("/test_user/projects/test_project")),
        ("selection", Json::text("fn test_function() {")),
    ])
}

fn context() -> NoteContext {
    NoteContext {
        filename: "test_file.rs".to_string(),
        project_dir: "/test_user/projects/test_project".to_string(),
        selection: "fn test_function() {".to_string(),
    }
}

fn todo_doc(line: &str) -> Json {
    object(vec![
        ("branch", Json::text("main")),
        ("file_path", Json::text("src/lib.rs")),
        ("line_number", Json::text(line)),
        ("content", Json::text("fix this")),
    ])
}

fn todo(line: u64) -> NewTodoItem {
    NewTodoItem {
        branch: "main".to_string(),
        file_path: "src/lib.rs".to_string(),
        line_number: line,
        content: "fix this".to_string(),
    }
}

fn without(doc: &Json, key: &str) -> Json {
    match doc {
        Json::Object(members) => {
            Json::Object(members.iter().filter(|(k, _)| k != key).cloned().collect())
        }
        other => other.clone(),
    }
}

#[test]
fn get_str_gives_the_text_of_a_member() {
    let doc = object(vec![("a", Json::text("x")), ("n", Json::Number(Number::PosInt(1)))]);
    assert_eq!(get_str(&doc, "a"), Ok("x".to_string()));
    assert_eq!(get_str(&doc, "n"), Err("n is required".to_string()));
    assert_eq!(get_str(&doc, "missing"), Err("missing is required".to_string()));
    assert_eq!(get_str(&Json::Null, "a"), Err("a is required".to_string()));
}

#[test]
fn note_context_is_read_out_of_its_document() {
    assert_eq!(NoteContext::try_from(&context_doc()), Ok(context()));
}

#[test]
fn note_context_names_the_first_member_that_is_not_there() {
    let doc = context_doc();
    assert_eq!(NoteContext::try_from(&without(&doc, "filename")), Err("Filename required".to_string()));
    assert_eq!(
        NoteContext::try_from(&without(&doc, "project_dir")),
        Err("Project directory required".to_string())
    );
    assert_eq!(NoteContext::try_from(&without(&doc, "selection")), Err("Selection required".to_string()));
    assert_eq!(NoteContext::try_from(&object(vec![])), Err("Filename required".to_string()));
    assert_eq!(NoteContext::try_from(&Json::Null), Err("Filename required".to_string()));
    let ill_typed = object(vec![
        ("filename", Json::text("f")),
        ("project_dir", Json::Number(Number::PosInt(1))),
    ]);
    assert_eq!(NoteContext::try_from(&ill_typed), Err("Project directory required".to_string()));
}

#[test]
fn new_note_is_read_out_of_its_document() {
    let doc = object(vec![("context", context_doc()), ("content", Json::text("A new test note"))]);
    assert_eq!(
        NewNote::try_from(&doc),
        Ok(NewNote { context: context(), content: "A new test note".to_string() })
    );
}

#[test]
fn new_note_needs_a_context_that_is_an_object() {
    let content = ("content", Json::text("c"));
    assert_eq!(NewNote::try_from(&object(vec![content.clone()])), Err("Invalid context".to_string()));
    assert_eq!(
        NewNote::try_from(&object(vec![("context", Json::text("x")), content.clone()])),
        Err("Invalid context".to_string())
    );
    assert_eq!(NewNote::try_from(&Json::Array(vec![])), Err("Invalid context".to_string()));
    assert_eq!(
        NewNote::try_from(&object(vec![("context", object(vec![])), content])),
        Err("Filename required".to_string())
    );
}

#[test]
fn new_note_needs_its_content() {
    assert_eq!(
        NewNote::try_from(&object(vec![("context", context_doc())])),
        Err("content is required".to_string())
    );
    assert_eq!(
        NewNote::try_from(&object(vec![("context", context_doc()), ("content", Json::Null)])),
        Err("content is required".to_string())
    );
}

#[test]
fn note_keeps_what_the_new_note_held() {
    let new_note = NewNote { context: context(), content: "A new test note".to_string() };
    let note = Note::with_id(5, new_note.clone());
    assert_eq!(note, Note { id: 5, context: context(), content: "A new test note".to_string() });
    let note = Note::new(new_note);
    assert_eq!(note.context, context());
    assert_eq!(note.content, "A new test note");
}

#[test]
fn fresh_identifiers_are_marked_as_random_and_differ() {
    let new_note = NewNote { context: context(), content: String::new() };
    let one = Note::new(new_note.clone()).id;
    let two = Note::new(new_note).id;
    for id in [one, two] {
        assert_eq!((id >> 76) & 0xf, 4);
        assert_eq!((id >> 62) & 0x3, 2);
    }
    assert_ne!(one, two);
}

#[test]
fn new_todo_item_is_read_out_of_its_document() {
    assert_eq!(NewTodoItem::try_from(&todo_doc("42")), Ok(todo(42)));
    assert_eq!(NewTodoItem::try_from(&todo_doc("0")), Ok(todo(0)));
    assert_eq!(NewTodoItem::try_from(&todo_doc("+7")), Ok(todo(7)));
    assert_eq!(NewTodoItem::try_from(&todo_doc("007")), Ok(todo(7)));
    assert_eq!(NewTodoItem::try_from(&todo_doc("18446744073709551615")), Ok(todo(u64::MAX)));
}

#[test]
fn new_todo_item_needs_a_line_number_in_decimal() {
    for line in ["", "+", "-1", "4 2", " 42", "42 ", "1.5", "0x10", "18446744073709551616", "\u{664}\u{662}"] {
        assert_eq!(
            NewTodoItem::try_from(&todo_doc(line)),
            Err("failed to parse line_number".to_string())
        );
    }
}

#[test]
fn new_todo_item_names_the_first_member_that_is_not_there() {
    let doc = todo_doc("1");
    for key in ["branch", "file_path", "line_number", "content"] {
        assert_eq!(NewTodoItem::try_from(&without(&doc, key)), Err(format!("{} is required", key)));
    }
    assert_eq!(NewTodoItem::try_from(&object(vec![])), Err("branch is required".to_string()));
    let number = object(vec![
        ("branch", Json::text("main")),
        ("file_path", Json::text("src/lib.rs")),
        ("line_number", Json::Number(Number::PosInt(42))),
        ("content", Json::text("fix this")),
    ]);
    assert_eq!(NewTodoItem::try_from(&number), Err("line_number is required".to_string()));
    let bad_line_and_no_content = without(&todo_doc("x"), "content");
    assert_eq!(
        NewTodoItem::try_from(&bad_line_and_no_content),
        Err("failed to parse line_number".to_string())
    );
}

#[test]
fn new_todo_items_keep_the_items_that_can_be_read() {
    let docs = Json::Array(vec![
        todo_doc("1"),
        Json::Null,
        todo_doc("x"),
        todo_doc("2"),
        without(&todo_doc("3"), "branch"),
        todo_doc("4"),
    ]);
    assert_eq!(NewTodoItems::try_from(&docs), Ok(NewTodoItems(vec![todo(1), todo(2), todo(4)])));
    assert_eq!(NewTodoItems::try_from(&Json::Array(vec![])), Ok(NewTodoItems(vec![])));
    assert_eq!(NewTodoItems::try_from(&Json::Array(vec![Json::Null])), Ok(NewTodoItems(vec![])));
}

#[test]
fn new_todo_items_need_an_array() {
    for doc in [Json::Null, todo_doc("1"), Json::text("[]")] {
        assert_eq!(
            NewTodoItems::try_from(&doc),
            Err("params is expected to be an array".to_string())
        );
    }
}

#[test]
fn todo_item_keeps_what_the_new_item_held() {
    let at = Timestamp { seconds: 1_700_000_000, nanos: 5 };
    let item = TodoItem::stamped(9, at, todo(42));
    assert_eq!(
        item,
        TodoItem {
            id: 9,
            hash: String::new(),
            branch: "main".to_string(),
            file_path: "src/lib.rs".to_string(),
            line_number: 42,
            content: "fix this".to_string(),
            created_at: at,
            deleted_at: None,
        }
    );
}

#[test]
fn todo_item_is_stamped_with_a_fresh_identifier_and_the_time_of_the_call() {
    let item = TodoItem::new(todo(42));
    assert_eq!((item.id >> 76) & 0xf, 4);
    assert_eq!((item.id >> 62) & 0x3, 2);
    assert_eq!(item.hash, "");
    assert_eq!(item.branch, "main");
    assert_eq!(item.file_path, "src/lib.rs");
    assert_eq!(item.line_number, 42);
    assert_eq!(item.content, "fix this");
    assert_eq!(item.deleted_at, None);
    assert!(item.created_at.seconds > 1_600_000_000);
    assert!(item.created_at.nanos < 2_000_000_000);
}
