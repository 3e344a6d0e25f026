//! To-do items found in a project's files.

use crate::decimal::{parse_u64, read_u64};
use crate::json::{items_view, Json, JsonValue};
use crate::types::clock::{now, Timestamp};
use crate::types::id::{fresh_id, is_random_id};
use crate::types::{get_str, member_text, required};
use vstd::prelude::*;
use vstd::string::StringSliceAdditionalSpecFns;
use vstd::utf8::encode_utf8;

verus! {

/// A to-do item that is not stored yet.
#[derive(Debug, Clone, PartialEq, Eq)]
pub struct NewTodoItem {
    pub branch: String,
    pub file_path: String,
    pub line_number: u64,
    pub content: String,
}

/// What a `NewTodoItem` holds.
pub struct NewTodoItemView {
    pub branch: Seq<char>,
    pub file_path: Seq<char>,
    pub line_number: u64,
    pub content: Seq<char>,
}

impl View for NewTodoItem {
    type V = NewTodoItemView;

    open spec fn view(&self) -> NewTodoItemView {
        NewTodoItemView {
            branch: self.branch@,
            file_path: self.file_path@,
            line_number: self.line_number,
            content: self.content@,
        }
    }
}

/// The line number that `text` writes: a decimal number that fits 64 bits,
/// read off the UTF-8 form of the text.
pub open spec fn line_number_of(text: Seq<char>) -> Option<u64> {
    parse_u64(encode_utf8(text))
}

/// The new to-do item that `doc` holds: its members `branch`, `file_path`,
/// `line_number` and `content`, each a string, the line number in decimal.
/// Where that fails, the complaint about the first, in this order, that is
/// not there or, for the line number, writes no number.
pub open spec fn new_todo_of(doc: JsonValue) -> Result<NewTodoItemView, Seq<char>> {
    let line = member_text(doc, "line_number"@);
    if member_text(doc, "branch"@) is None {
        Err(required("branch"@))
    } else if member_text(doc, "file_path"@) is None {
        Err(required("file_path"@))
    } else if line is None {
        Err(required("line_number"@))
    } else if line_number_of(line->0) is None {
        Err("failed to parse line_number"@)
    } else if member_text(doc, "content"@) is None {
        Err(required("content"@))
    } else {
        Ok(
            NewTodoItemView {
                branch: member_text(doc, "branch"@)->0,
                file_path: member_text(doc, "file_path"@)->0,
                line_number: line_number_of(line->0)->0,
                content: member_text(doc, "content"@)->0,
            },
        )
    }
}

impl NewTodoItem {
    /// Reads the new to-do item that `value` holds.
    pub fn try_from(value: &Json) -> (r: Result<NewTodoItem, String>)
        ensures
            match r {
                Ok(item) => new_todo_of(value@) == Ok::<NewTodoItemView, Seq<char>>(item@),
                Err(why) => new_todo_of(value@) == Err::<NewTodoItemView, Seq<char>>(why@),
            },
    {
        let branch = match get_str(value, "branch") {
            Ok(text) => text,
            Err(why) => {
                return Err(why);
            },
        };
        let file_path = match get_str(value, "file_path") {
            Ok(text) => text,
            Err(why) => {
                return Err(why);
            },
        };
        let line = match get_str(value, "line_number") {
            Ok(text) => text,
            Err(why) => {
                return Err(why);
            },
        };
        let line_number = match read_u64(line.as_str().as_bytes()) {
            Some(n) => n,
            None => {
                return Err("failed to parse line_number".to_owned());
            },
        };
        match get_str(value, "content") {
            Ok(content) => Ok(NewTodoItem { branch, file_path, line_number, content }),
            Err(why) => Err(why),
        }
    }
}

/// The to-do items of a whole project.
#[derive(Debug, Clone, PartialEq, Eq)]
pub struct NewTodoItems(pub Vec<NewTodoItem>);

/// What a list of new to-do items holds.
pub open spec fn todos_view(items: Seq<NewTodoItem>) -> Seq<NewTodoItemView> {
    Seq::new(items.len(), |i: int| items[i]@)
}

/// The new to-do items that the documents `docs` hold, in their order; a
/// document that holds none is passed over.
pub open spec fn valid_todos(docs: Seq<JsonValue>) -> Seq<NewTodoItemView>
    decreases docs.len(),
{
    if docs.len() == 0 {
        Seq::empty()
    } else {
        match new_todo_of(docs.last()) {
            Ok(item) => valid_todos(docs.drop_last()).push(item),
            Err(_) => valid_todos(docs.drop_last()),
        }
    }
}

/// The new to-do items that `doc` holds: `doc` is an array, and the items are
/// those that its documents hold.
pub open spec fn new_todos_of(doc: JsonValue) -> Result<Seq<NewTodoItemView>, Seq<char>> {
    match doc.items() {
        Some(docs) => Ok(valid_todos(docs)),
        None => Err("params is expected to be an array"@),
    }
}

impl NewTodoItems {
    /// Reads the new to-do items that `value` holds.
    pub fn try_from(value: &Json) -> (r: Result<NewTodoItems, String>)
        ensures
            match r {
                Ok(items) => new_todos_of(value@) == Ok::<Seq<NewTodoItemView>, Seq<char>>(
                    todos_view(items.0@),
                ),
                Err(why) => new_todos_of(value@) == Err::<Seq<NewTodoItemView>, Seq<char>>(why@),
            },
    {
        let docs = match value.as_array() {
            Some(docs) => docs,
            None => {
                return Err("params is expected to be an array".to_owned());
            },
        };
        let ghost all = items_view(docs@);
        let mut items: Vec<NewTodoItem> = Vec::new();
        let mut i: usize = 0;
        assert(all.subrange(0, 0) =~= Seq::<JsonValue>::empty());
        while i < docs.len()
            invariant
                i <= docs.len(),
                all == items_view(docs@),
                todos_view(items@) =~= valid_todos(all.subrange(0, i as int)),
            decreases docs.len() - i,
        {
            proof {
                let upto = all.subrange(0, i + 1);
                assert(upto.last() == docs@[i as int]@);
                assert(upto.drop_last() =~= all.subrange(0, i as int));
            }
            match NewTodoItem::try_from(&docs[i]) {
                Ok(item) => {
                    items.push(item);
                },
                Err(_) => {},
            }
            i += 1;
        }
        assert(all.subrange(0, i as int) =~= all);
        Ok(NewTodoItems(items))
    }
}

/// A stored to-do item.
#[derive(Debug, Clone, PartialEq, Eq)]
pub struct TodoItem {
    pub id: u128,
    pub hash: String,
    pub branch: String,
    pub file_path: String,
    pub line_number: u64,
    pub content: String,
    pub created_at: Timestamp,
    pub deleted_at: Option<Timestamp>,
}

impl TodoItem {
    /// Whether `self` is what `new_todo` became when it was stored: an empty
    /// hash, the item's own fields, and no deletion.
    pub open spec fn stores(self, new_todo: NewTodoItemView) -> bool {
        &&& self.hash@ == Seq::<char>::empty()
        &&& self.branch@ == new_todo.branch
        &&& self.file_path@ == new_todo.file_path
        &&& self.line_number == new_todo.line_number
        &&& self.content@ == new_todo.content
        &&& self.deleted_at is None
    }

    /// The item that `new_todo` becomes under the identifier `id`, stored at
    /// `created_at`.
    pub fn stamped(id: u128, created_at: Timestamp, new_todo: NewTodoItem) -> (r: TodoItem)
        ensures
            r.id == id,
            r.created_at == created_at,
            r.stores(new_todo@),
    {
        TodoItem {
            id,
            hash: String::new(),
            branch: new_todo.branch,
            file_path: new_todo.file_path,
            line_number: new_todo.line_number,
            content: new_todo.content,
            created_at,
            deleted_at: None,
        }
    }

    /// The item that `new_todo` becomes now, under a fresh identifier. The
    /// identifier is a matter of chance and the time that of the call: two
    /// calls on the same item may give two.
    pub fn new(new_todo: NewTodoItem) -> (r: TodoItem)
        ensures
            is_random_id(r.id),
            r.stores(new_todo@),
    {
        let id = fresh_id();
        TodoItem::stamped(id, now(), new_todo)
    }
}

} // verus!
