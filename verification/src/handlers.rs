//! The handlers that store what a request carries.

pub mod echo;
pub mod todo;

use crate::database::Storage;
use crate::json::{lemma_view_of_parts, Json, JsonValue};
use crate::types::id::{hyphenated, id_text};
use crate::types::note::{new_note_of, NewNote};
use crate::types::todo::{new_todo_of, NewTodoItem};
use vstd::prelude::*;

verus! {

/// The document that reports the identifier `id` of what was stored: an
/// object whose one member, `id`, is the identifier in hyphenated form.
pub open spec fn id_document(id: u128) -> JsonValue {
    JsonValue::Object(seq![("id"@, JsonValue::Text(hyphenated(id)))])
}

/// What a store's answer to saving becomes: the document of the identifier,
/// or the store's complaint as it is.
pub open spec fn save_reply(saved: Result<u128, Seq<char>>) -> Result<JsonValue, Seq<char>> {
    match saved {
        Ok(id) => Ok(id_document(id)),
        Err(why) => Err(why),
    }
}

/// What a store's answer to saving holds.
pub open spec fn saved_view(saved: Result<u128, String>) -> Result<u128, Seq<char>> {
    match saved {
        Ok(id) => Ok(id),
        Err(why) => Err(why@),
    }
}

/// Makes of a store's answer to saving the handler's own.
pub fn reply_to_save(saved: Result<u128, String>) -> (r: Result<Json, String>)
    ensures
        match r {
            Ok(doc) => save_reply(saved_view(saved)) == Ok::<JsonValue, Seq<char>>(doc@),
            Err(why) => save_reply(saved_view(saved)) == Err::<JsonValue, Seq<char>>(why@),
        },
{
    match saved {
        Ok(id) => {
            let mut members: Vec<(String, Json)> = Vec::new();
            members.push(("id".to_owned(), Json::Text(id_text(id))));
            let doc = Json::Object(members);
            proof {
                lemma_view_of_parts(doc);
                assert(doc@->Object_0 =~= id_document(id)->Object_0);
            }
            Ok(doc)
        },
        Err(why) => Err(why),
    }
}

/// The handlers over one store.
pub struct Handler<DB> {
    database: DB,
}

impl<DB> Handler<DB> {
    /// The store.
    pub closed spec fn database(&self) -> DB {
        self.database
    }

    /// The handlers over `database`.
    pub fn new(database: DB) -> (r: Self)
        ensures
            r.database() == database,
    {
        Handler { database }
    }
}

/// What a handler's answer holds.
pub open spec fn reply_view(reply: Result<Json, String>) -> Result<JsonValue, Seq<char>> {
    match reply {
        Ok(doc) => Ok(doc@),
        Err(why) => Err(why@),
    }
}

impl<DB: Storage> Handler<DB> {
    /// Stores the note that `params` holds. Parameters that hold no note are
    /// refused with the complaint, and the store is not asked. Otherwise the
    /// store is asked to save the note, and the answer is what `save_reply`
    /// makes of the store's: the document of the identifier it gave, or its
    /// complaint.
    pub fn save_note(&self, params: Json) -> (r: Result<Json, String>)
        ensures
            match new_note_of(params@) {
                Err(why) => r matches Err(said) && said@ == why,
                Ok(held) => exists|note: NewNote, saved: Result<u128, String>|
                    {
                        &&& note@ == held
                        &&& #[trigger] self.database().saves_note(note, saved)
                        &&& save_reply(saved_view(saved)) == reply_view(r)
                    },
            },
    {
        match NewNote::try_from(&params) {
            Err(why) => Err(why),
            Ok(new_note) => {
                let ghost asked = new_note;
                let saved = self.database.save_note(new_note);
                let ghost answer = saved;
                let r = reply_to_save(saved);
                proof {
                    assert(self.database().saves_note(asked, answer));
                    assert(save_reply(saved_view(answer)) == reply_view(r));
                }
                r
            },
        }
    }

    /// Stores the to-do item that `params` holds, in the way of `save_note`.
    pub fn save_todo_item(&self, params: Json) -> (r: Result<Json, String>)
        ensures
            match new_todo_of(params@) {
                Err(why) => r matches Err(said) && said@ == why,
                Ok(held) => exists|item: NewTodoItem, saved: Result<u128, String>|
                    {
                        &&& item@ == held
                        &&& #[trigger] self.database().saves_todo(item, saved)
                        &&& save_reply(saved_view(saved)) == reply_view(r)
                    },
            },
    {
        match NewTodoItem::try_from(&params) {
            Err(why) => Err(why),
            Ok(new_todo) => {
                let ghost asked = new_todo;
                let saved = self.database.save_todo(new_todo);
                let ghost answer = saved;
                let r = reply_to_save(saved);
                proof {
                    assert(self.database().saves_todo(asked, answer));
                    assert(save_reply(saved_view(answer)) == reply_view(r));
                }
                r
            },
        }
    }
}

} // verus!
