use contextual_backend::database::{NoteStorage, TodoStorage};
use contextual_backend::handlers::todo::NewTodoService;
use contextual_backend::handlers::{reply_to_save, Handler};
use contextual_backend::json::Json;
use contextual_backend::jsonrpc::{JsonRpcRequest, JsonRpcResponse, ResponseError};
use contextual_backend::router::RouterFactory;
use contextual_backend::service::Service;
use contextual_backend::types::note::{NewNote, Note};
use contextual_backend::types::todo::{NewTodoItem, TodoItem};
use std::cell::RefCell;
use std::rc::Rc;

const ID: u128 = 0xa1a2a3a4b1b2c1c2d1d2d3d4d5d6d7d8;

/// A store that remembers what it was asked to save and answers as it was
/// told to.
#[derive(Clone)]
struct Scripted {
    answer: Result<u128, String>,
    notes: Rc<RefCell<Vec<NewNote>>>,
    todos: Rc<RefCell<Vec<NewTodoItem>>>,
}

impl Scripted {
    fn answering(answer: Result<u128, String>) -> Self {
        Scripted { answer, notes: Rc::new(RefCell::new(vec![])), todos: Rc::new(RefCell::new(vec![])) }
    }
}

impl NoteStorage for Scripted {
    fn save_note(&self, new_note: NewNote) -> Result<u128, String> {
        self.notes.borrow_mut().push(new_note);
        self.answer.clone()
    }

    fn get_note(&self, _note_id: u128) -> Result<Note, String> {
        Err("no such note".to_string())
    }

    fn get_notes(&self) -> Result<Vec<String>, String> {
        Ok(vec![])
    }

    fn update_note(&self, _note_id: u64, _updated_note: String) -> Result<(), String> {
        Ok(())
    }

    fn delete_note(&self, _note_id: u64) -> Result<(), String> {
        Ok(())
    }
}

impl TodoStorage for Scripted {
    fn save_todo(&self, new_todo: NewTodoItem) -> Result<u128, String> {
        self.todos.borrow_mut().push(new_todo);
        self.answer.clone()
    }

    fn get_todos(&self) -> Result<Vec<TodoItem>, String> {
        Ok(vec![])
    }
}

fn object(members: Vec<(&str, Json)>) -> Json {
    Json::Object(members.into_iter().map(|(k, v)| (k.to_string(), v)).collect())
}

fn todo_doc() -> Json {
    object(vec![
        ("branch", Json::text("main")),
        ("file_path", Json::text("src/lib.rs")),
        ("line_number", Json::text("42")),
        ("content", Json::text("fix this")),
    ])
}

fn todo() -> NewTodoItem {
    NewTodoItem {
        branch: "main".to_string(),
        file_path: "src/lib.rs".to_string(),
        line_number: 42,
        content: "fix this".to_string(),
    }
}

fn note_doc() -> Json {
    object(vec![
        (
            "context",
            object(vec![
                ("filename", Json::text("test_file.rs")),
                ("project_dir", Json::text("/test_user/projects/test_project")),
                ("selection", Json::text("fn test_function() {")),
            ]),
        ),
        ("content", Json::text("A new test note")),
    ])
}

fn request(id: u64, params: Json) -> JsonRpcRequest {
    JsonRpcRequest {
        jsonrpc: "2.0".to_string(),
        id,
        method: "contextual/new_todo".to_string(),
        params,
    }
}

#[test]
fn identifier_is_written_in_hyphenated_lower_case() {
    assert_eq!(
        NewTodoService::<Scripted>::finish(Ok(ID)),
        Ok(Json::text("a1a2a3a4-b1b2-c1c2-d1d2-d3d4d5d6d7d8"))
    );
    assert_eq!(
        NewTodoService::<Scripted>::finish(Ok(0)),
        Ok(Json::text("00000000-0000-0000-0000-000000000000"))
    );
    assert_eq!(
        NewTodoService::<Scripted>::finish(Ok(u128::MAX)),
        Ok(Json::text("ffffffff-ffff-ffff-ffff-ffffffffffff"))
    );
    assert_eq!(
        NewTodoService::<Scripted>::finish(Ok(0x0123456789abcdef0fedcba987654321)),
        Ok(Json::text("01234567-89ab-cdef-0fed-cba987654321"))
    );
}

#[test]
fn complaint_of_the_store_becomes_an_application_error() {
    assert_eq!(
        NewTodoService::<Scripted>::finish(Err("disk full".to_string())),
        Err(ResponseError { code: -32000, message: "disk full".to_string() })
    );
}

#[test]
fn prepare_reads_the_item_or_says_why_not() {
    assert_eq!(NewTodoService::<Scripted>::prepare(&request(1, todo_doc())), Ok(todo()));
    assert_eq!(
        NewTodoService::<Scripted>::prepare(&request(1, Json::Null)),
        Err(ResponseError { code: -32000, message: "branch is required".to_string() })
    );
}

#[test]
fn new_todo_service_saves_the_item_and_answers_with_the_identifier() {
    let store = Scripted::answering(Ok(ID));
    let mut service = NewTodoService::new(store.clone());
    assert_eq!(
        service.call(request(1, todo_doc())),
        Ok(Json::text("a1a2a3a4-b1b2-c1c2-d1d2-d3d4d5d6d7d8"))
    );
    assert_eq!(*store.todos.borrow(), vec![todo()]);
    assert_eq!(service.storage().answer, Ok(ID));
}

#[test]
fn new_todo_service_does_not_ask_the_store_for_what_is_no_item() {
    let store = Scripted::answering(Ok(ID));
    let mut service = NewTodoService::new(store.clone());
    assert_eq!(
        service.call(request(1, object(vec![("branch", Json::text("main"))]))),
        Err(ResponseError { code: -32000, message: "file_path is required".to_string() })
    );
    assert!(store.todos.borrow().is_empty());
}

#[test]
fn new_todo_service_passes_the_complaint_of_the_store_on() {
    let mut service = NewTodoService::new(Scripted::answering(Err("disk full".to_string())));
    assert_eq!(
        service.call(request(1, todo_doc())),
        Err(ResponseError { code: -32000, message: "disk full".to_string() })
    );
}

#[test]
fn new_todo_service_behind_the_router_answers_under_the_id() {
    let factory = RouterFactory::new()
        .with_route("contextual/new_todo", NewTodoService::new(Scripted::answering(Ok(ID))));
    let mut router = factory.service();
    assert_eq!(
        router.call(request(3, todo_doc())),
        Ok(JsonRpcResponse::ok(3, Json::text("a1a2a3a4-b1b2-c1c2-d1d2-d3d4d5d6d7d8")))
    );
    assert_eq!(
        router.call(request(4, Json::Null)),
        Ok(JsonRpcResponse::from_error(
            4,
            ResponseError { code: -32000, message: "branch is required".to_string() }
        ))
    );
}

#[test]
fn reply_to_save_reports_the_identifier_in_an_object() {
    assert_eq!(
        reply_to_save(Ok(ID)),
        Ok(object(vec![("id", Json::text("a1a2a3a4-b1b2-c1c2-d1d2-d3d4d5d6d7d8"))]))
    );
    assert_eq!(reply_to_save(Err("no".to_string())), Err("no".to_string()));
}

#[test]
fn handler_saves_a_note() {
    let store = Scripted::answering(Ok(ID));
    let handler = Handler::new(store.clone());
    assert_eq!(
        handler.save_note(note_doc()),
        Ok(object(vec![("id", Json::text("a1a2a3a4-b1b2-c1c2-d1d2-d3d4d5d6d7d8"))]))
    );
    assert_eq!(store.notes.borrow().len(), 1);
    assert_eq!(store.notes.borrow()[0].content, "A new test note");
    assert_eq!(store.notes.borrow()[0].context.filename, "test_file.rs");
}

#[test]
fn handler_refuses_what_is_no_note_without_asking_the_store() {
    let store = Scripted::answering(Ok(ID));
    let handler = Handler::new(store.clone());
    assert_eq!(handler.save_note(Json::Null), Err("Invalid context".to_string()));
    assert_eq!(handler.save_note(todo_doc()), Err("Invalid context".to_string()));
    assert!(store.notes.borrow().is_empty());
}

#[test]
fn handler_saves_a_todo_item() {
    let store = Scripted::answering(Ok(ID));
    let handler = Handler::new(store.clone());
    assert_eq!(
        handler.save_todo_item(todo_doc()),
        Ok(object(vec![("id", Json::text("a1a2a3a4-b1b2-c1c2-d1d2-d3d4d5d6d7d8"))]))
    );
    assert_eq!(*store.todos.borrow(), vec![todo()]);
    assert_eq!(handler.save_todo_item(note_doc()), Err("branch is required".to_string()));
}

#[test]
fn handler_passes_the_complaint_of_the_store_on() {
    let handler = Handler::new(Scripted::answering(Err("read-only".to_string())));
    assert_eq!(handler.save_note(note_doc()), Err("read-only".to_string()));
    assert_eq!(handler.save_todo_item(todo_doc()), Err("read-only".to_string()));
}
