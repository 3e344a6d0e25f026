//! What the handlers ask of a store. A store keeps documents wherever it
//! likes, and what it answers is its own business: the traits only have each
//! store name the answers it may give to a request to save.

use crate::types::note::{NewNote, Note};
use crate::types::todo::{NewTodoItem, TodoItem};
use vstd::prelude::*;

verus! {

/// A store of notes. Each call gives what was asked for, or the reason why
/// not, in words.
pub trait NoteStorage {
    /// Whether `answer` is one that the store may give when it is asked to
    /// save `new_note`. Each store says this of itself, and `save_note` is
    /// held to it; a store that says nothing may give any answer.
    open spec fn saves_note(&self, new_note: NewNote, answer: Result<u128, String>) -> bool {
        true
    }

    fn save_note(&self, new_note: NewNote) -> (r: Result<u128, String>)
        ensures
            self.saves_note(new_note, r),
    ;

    fn get_note(&self, note_id: u128) -> Result<Note, String>;

    fn get_notes(&self) -> Result<Vec<String>, String>;

    fn update_note(&self, note_id: u64, updated_note: String) -> Result<(), String>;

    fn delete_note(&self, note_id: u64) -> Result<(), String>;
}

/// A store of to-do items.
pub trait TodoStorage {
    /// Whether `answer` is one that the store may give when it is asked to
    /// save `new_todo`; any answer, for a store that says nothing.
    open spec fn saves_todo(&self, new_todo: NewTodoItem, answer: Result<u128, String>) -> bool {
        true
    }

    fn save_todo(&self, new_todo: NewTodoItem) -> (r: Result<u128, String>)
        ensures
            self.saves_todo(new_todo, r),
    ;

    fn get_todos(&self) -> Result<Vec<TodoItem>, String>;
}

/// A store of both.
pub trait Storage: NoteStorage + TodoStorage {

}

impl<T: NoteStorage + TodoStorage> Storage for T {

}

} // verus!
