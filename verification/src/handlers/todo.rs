//! The service that stores a new to-do item.

use crate::database::TodoStorage;
use crate::handlers::saved_view;
use crate::json::{Json, JsonValue};
use crate::jsonrpc::{
    outcome_view, ErrorObject, JsonRpcRequest, ResponseError, APPLICATION_ERROR,
};
use crate::service::Service;
use crate::types::id::{hyphenated, id_text};
use crate::types::todo::{new_todo_of, NewTodoItem, NewTodoItemView};
use vstd::prelude::*;

verus! {

/// The error that a handler reports with the words `why`.
pub open spec fn application_error(why: Seq<char>) -> ErrorObject {
    ErrorObject { code: APPLICATION_ERROR, message: why }
}

/// What the service makes of a request before the store is asked: the item
/// that the parameters hold, or the error that says why they hold none.
pub open spec fn prepared(params: JsonValue) -> Result<NewTodoItemView, ErrorObject> {
    match new_todo_of(params) {
        Ok(item) => Ok(item),
        Err(why) => Err(application_error(why)),
    }
}

/// What the service makes of the store's answer: the identifier in
/// hyphenated form as the result, or the store's complaint as the error.
pub open spec fn finished(saved: Result<u128, Seq<char>>) -> Result<JsonValue, ErrorObject> {
    match saved {
        Ok(id) => Ok(JsonValue::Text(hyphenated(id))),
        Err(why) => Err(application_error(why)),
    }
}

/// Stores new to-do items in `storage`.
#[derive(Debug, Clone)]
pub struct NewTodoService<S> {
    storage: S,
}

impl<S> NewTodoService<S> {
    /// The store.
    pub closed spec fn store(&self) -> S {
        self.storage
    }

    /// The service that stores in `storage`.
    pub fn new(storage: S) -> (r: Self)
        ensures
            r.store() == storage,
    {
        NewTodoService { storage }
    }

    /// The store, for whoever does the storing.
    pub fn storage(&self) -> (r: &S)
        ensures
            *r == self.store(),
    {
        &self.storage
    }

    /// Reads the item to store out of the request's parameters.
    pub fn prepare(req: &JsonRpcRequest) -> (r: Result<NewTodoItem, ResponseError>)
        ensures
            match r {
                Ok(item) => prepared(req@.params) == Ok::<NewTodoItemView, ErrorObject>(item@),
                Err(e) => prepared(req@.params) == Err::<NewTodoItemView, ErrorObject>(e@),
            },
    {
        match NewTodoItem::try_from(&req.params) {
            Ok(item) => Ok(item),
            Err(why) => Err(ResponseError { code: APPLICATION_ERROR, message: why }),
        }
    }

    /// Makes the service's answer of the store's.
    pub fn finish(saved: Result<u128, String>) -> (r: Result<Json, ResponseError>)
        ensures
            match r {
                Ok(result) => finished(saved_view(saved)) == Ok::<JsonValue, ErrorObject>(result@),
                Err(e) => finished(saved_view(saved)) == Err::<JsonValue, ErrorObject>(e@),
            },
    {
        match saved {
            Ok(id) => Ok(Json::Text(id_text(id))),
            Err(why) => Err(ResponseError { code: APPLICATION_ERROR, message: why }),
        }
    }
}

impl<S: TodoStorage> Service<JsonRpcRequest> for NewTodoService<S> {
    type Response = Json;

    type Error = ResponseError;

    /// Parameters that hold no item are refused with the reason. For
    /// parameters that hold one, the answers are what `finished` makes of the
    /// answers that the store may give when asked to save that item.
    open spec fn answers(&self, req: JsonRpcRequest, outcome: Result<Json, ResponseError>) -> bool {
        match prepared(req@.params) {
            Err(e) => outcome matches Err(said) && said@ == e,
            Ok(held) => exists|item: NewTodoItem, saved: Result<u128, String>|
                {
                    &&& item@ == held
                    &&& #[trigger] self.store().saves_todo(item, saved)
                    &&& finished(saved_view(saved)) == outcome_view(outcome)
                },
        }
    }

    /// Stores the item that the request's parameters hold. Parameters that
    /// hold none are refused, and the store is not asked. Otherwise the store
    /// is asked to save the item, and its answer decides what `finish` makes
    /// of it: the identifier as the result, or the complaint as the error.
    fn call(&mut self, req: JsonRpcRequest) -> (r: Result<Json, ResponseError>)
        ensures
            final(self).store() == old(self).store(),
    {
        match Self::prepare(&req) {
            Err(e) => Err(e),
            Ok(item) => {
                let ghost asked = item;
                let saved = self.storage.save_todo(item);
                let ghost answer = saved;
                let r = Self::finish(saved);
                proof {
                    assert(self.store().saves_todo(asked, answer));
                    assert(finished(saved_view(answer)) == outcome_view(r));
                }
                r
            },
        }
    }
}

} // verus!
