//! Notes, and where in a project they were taken.

use crate::json::{Json, JsonValue};
use crate::types::id::{fresh_id, is_random_id};
use crate::types::{get_str, member_text, required};
use vstd::prelude::*;

verus! {

/// Where a note was taken: the file, the project's directory, and the text
/// that was selected.
#[derive(Debug, Clone, PartialEq, Eq)]
pub struct NoteContext {
    pub filename: String,
    pub project_dir: String,
    pub selection: String,
}

/// What a `NoteContext` holds.
pub struct NoteContextView {
    pub filename: Seq<char>,
    pub project_dir: Seq<char>,
    pub selection: Seq<char>,
}

impl View for NoteContext {
    type V = NoteContextView;

    open spec fn view(&self) -> NoteContextView {
        NoteContextView {
            filename: self.filename@,
            project_dir: self.project_dir@,
            selection: self.selection@,
        }
    }
}

/// The context that `doc` holds: its members `filename`, `project_dir` and
/// `selection`, each a string. Where one is not there, the complaint about
/// the first, in this order, that is not.
pub open spec fn note_context_of(doc: JsonValue) -> Result<NoteContextView, Seq<char>> {
    if member_text(doc, "filename"@) is None {
        Err("Filename required"@)
    } else if member_text(doc, "project_dir"@) is None {
        Err("Project directory required"@)
    } else if member_text(doc, "selection"@) is None {
        Err("Selection required"@)
    } else {
        Ok(
            NoteContextView {
                filename: member_text(doc, "filename"@)->0,
                project_dir: member_text(doc, "project_dir"@)->0,
                selection: member_text(doc, "selection"@)->0,
            },
        )
    }
}

/// The text of the member `key` of `value`, or `complaint`.
fn text_or(value: &Json, key: &str, complaint: &str) -> (r: Result<String, String>)
    ensures
        match r {
            Ok(text) => member_text(value@, key@) == Some(text@),
            Err(why) => member_text(value@, key@) is None && why@ == complaint@,
        },
{
    match get_str(value, key) {
        Ok(text) => Ok(text),
        Err(_) => Err(complaint.to_owned()),
    }
}

impl NoteContext {
    /// Reads the context that `value` holds.
    pub fn try_from(value: &Json) -> (r: Result<NoteContext, String>)
        ensures
            match r {
                Ok(context) => note_context_of(value@) == Ok::<NoteContextView, Seq<char>>(
                    context@,
                ),
                Err(why) => note_context_of(value@) == Err::<NoteContextView, Seq<char>>(why@),
            },
    {
        let filename = match text_or(value, "filename", "Filename required") {
            Ok(text) => text,
            Err(why) => {
                return Err(why);
            },
        };
        let project_dir = match text_or(value, "project_dir", "Project directory required") {
            Ok(text) => text,
            Err(why) => {
                return Err(why);
            },
        };
        let selection = match text_or(value, "selection", "Selection required") {
            Ok(text) => text,
            Err(why) => {
                return Err(why);
            },
        };
        Ok(NoteContext { filename, project_dir, selection })
    }
}

/// A note that is not stored yet.
#[derive(Debug, Clone, PartialEq, Eq)]
pub struct NewNote {
    pub context: NoteContext,
    pub content: String,
}

/// What a `NewNote` holds.
pub struct NewNoteView {
    pub context: NoteContextView,
    pub content: Seq<char>,
}

impl View for NewNote {
    type V = NewNoteView;

    open spec fn view(&self) -> NewNoteView {
        NewNoteView { context: self.context@, content: self.content@ }
    }
}

/// The new note that `doc` holds: a member `context` that is an object and
/// holds a context, and a member `content` that is a string. The context is
/// read first.
pub open spec fn new_note_of(doc: JsonValue) -> Result<NewNoteView, Seq<char>> {
    let context = doc.get("context"@);
    if context is None || !(context->0 is Object) {
        Err("Invalid context"@)
    } else if note_context_of(context->0) is Err {
        Err(note_context_of(context->0)->Err_0)
    } else if member_text(doc, "content"@) is None {
        Err(required("content"@))
    } else {
        Ok(
            NewNoteView {
                context: note_context_of(context->0)->Ok_0,
                content: member_text(doc, "content"@)->0,
            },
        )
    }
}

impl NewNote {
    /// Reads the new note that `value` holds.
    pub fn try_from(value: &Json) -> (r: Result<NewNote, String>)
        ensures
            match r {
                Ok(note) => new_note_of(value@) == Ok::<NewNoteView, Seq<char>>(note@),
                Err(why) => new_note_of(value@) == Err::<NewNoteView, Seq<char>>(why@),
            },
    {
        let held = match value.get("context") {
            Some(held) => held,
            None => {
                return Err("Invalid context".to_owned());
            },
        };
        if held.as_object().is_none() {
            return Err("Invalid context".to_owned());
        }
        let context = match NoteContext::try_from(held) {
            Ok(context) => context,
            Err(why) => {
                return Err(why);
            },
        };
        match get_str(value, "content") {
            Ok(content) => Ok(NewNote { context, content }),
            Err(why) => Err(why),
        }
    }
}

/// A stored note.
#[derive(Debug, Clone, PartialEq, Eq)]
pub struct Note {
    pub id: u128,
    pub context: NoteContext,
    pub content: String,
}

impl Note {
    /// The note that `new_note` becomes under the identifier `id`.
    pub fn with_id(id: u128, new_note: NewNote) -> (r: Note)
        ensures
            r.id == id,
            r.context@ == new_note.context@,
            r.content@ == new_note.content@,
    {
        Note { id, context: new_note.context, content: new_note.content }
    }

    /// The note that `new_note` becomes under a fresh identifier. Which
    /// identifier is a matter of chance: two calls on the same note may give
    /// two.
    pub fn new(new_note: NewNote) -> (r: Note)
        ensures
            is_random_id(r.id),
            r.context@ == new_note.context@,
            r.content@ == new_note.content@,
    {
        Note::with_id(fresh_id(), new_note)
    }
}

} // verus!
