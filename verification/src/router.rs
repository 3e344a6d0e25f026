//! The route table: which service answers which method.

use crate::json::Json;
use crate::jsonrpc::{
    outcome_view, ErrorObject, JsonRpcRequest, JsonRpcResponse, RequestEnvelope,
    ResponseEnvelope, ResponseError, METHOD_NOT_FOUND,
};
use crate::service::{CloneableService, Service};
use crate::text::{joined, same_text};
use vstd::prelude::*;

verus! {

/// One registration: a method's name and the service that answers it.
pub struct Route<S> {
    pub method: String,
    pub service: S,
}

/// The table that a list of registrations amounts to: each method's name with
/// the service that was registered for it last.
pub open spec fn table<S>(routes: Seq<Route<S>>) -> Map<Seq<char>, S>
    decreases routes.len(),
{
    if routes.len() == 0 {
        Map::empty()
    } else {
        table(routes.drop_last()).insert(routes.last().method@, routes.last().service)
    }
}

/// Builds a route table, one registration at a time.
pub struct RouterFactory<S> {
    routes: Vec<Route<S>>,
}

/// A route table as the connections see it: read, never written.
pub struct RouterService<'a, S> {
    routes: &'a Vec<Route<S>>,
}

impl<S> View for RouterFactory<S> {
    type V = Map<Seq<char>, S>;

    closed spec fn view(&self) -> Map<Seq<char>, S> {
        table(self.routes@)
    }
}

impl<'a, S> View for RouterService<'a, S> {
    type V = Map<Seq<char>, S>;

    closed spec fn view(&self) -> Map<Seq<char>, S> {
        table(self.routes@)
    }
}

/// The response to a request whose method has no route: the request's id, no
/// result, and the error that names the method.
pub open spec fn method_not_found(request: RequestEnvelope) -> ResponseEnvelope {
    ResponseEnvelope::from_error(
        request.id,
        ErrorObject { code: METHOD_NOT_FOUND, message: "Method not found: "@ + request.method },
    )
}

/// What the table decides for a request.
pub enum Dispatch<'a, S> {
    /// The method has a route: this service is to answer this request.
    Forward { service: &'a S, request: JsonRpcRequest },
    /// The method has none: this is the response.
    Reply(JsonRpcResponse),
}

impl<S> RouterFactory<S> {
    /// A table without routes.
    pub fn new() -> (r: Self)
        ensures
            r@ == Map::<Seq<char>, S>::empty(),
    {
        RouterFactory { routes: Vec::new() }
    }

    /// Registers `svc` for `method`. A service registered earlier for the same
    /// name is replaced: the last registration wins.
    pub fn with_route(self, method: &str, svc: S) -> (r: Self)
        ensures
            r@ == self@.insert(method@, svc),
    {
        let mut routes = self.routes;
        let ghost before = routes@;
        routes.push(Route { method: method.to_owned(), service: svc });
        proof {
            assert(routes@.drop_last() =~= before);
        }
        RouterFactory { routes }
    }

    /// The table as it stands, for a connection to read.
    pub fn service(&self) -> (r: RouterService<'_, S>)
        ensures
            r@ == self@,
    {
        RouterService { routes: &self.routes }
    }
}

impl<'a, S> RouterService<'a, S> {
    /// The service that answers `method`, where the table has one.
    pub fn lookup(&self, method: &str) -> (r: Option<&'a S>)
        ensures
            match r {
                Some(service) => self@.contains_key(method@) && *service == self@[method@],
                None => !self@.contains_key(method@),
            },
    {
        let routes = self.routes;
        let ghost all = routes@;
        assert(all.subrange(0, all.len() as int) =~= all);
        let mut i: usize = routes.len();
        while i > 0
            invariant
                i <= routes.len(),
                all == routes@,
                self@ == table(all),
                table(all).contains_key(method@) == table(all.subrange(0, i as int)).contains_key(
                    method@,
                ),
                table(all).contains_key(method@) ==> table(all)[method@] == table(
                    all.subrange(0, i as int),
                )[method@],
            decreases i,
        {
            i -= 1;
            proof {
                let upto = all.subrange(0, i + 1);
                assert(upto.last() == all[i as int]);
                assert(upto.drop_last() =~= all.subrange(0, i as int));
            }
            if same_text(routes[i].method.as_str(), method) {
                return Some(&routes[i].service);
            }
        }
        None
    }

    /// Decides what becomes of `request`: forwarded to the service of its
    /// method, or answered at once where the method has no route.
    pub fn route(&self, request: JsonRpcRequest) -> (r: Dispatch<'a, S>)
        ensures
            match r {
                Dispatch::Forward { service, request: forwarded } => {
                    &&& self@.contains_key(request@.method)
                    &&& *service == self@[request@.method]
                    &&& forwarded == request
                },
                Dispatch::Reply(response) => {
                    &&& !self@.contains_key(request@.method)
                    &&& response@ == method_not_found(request@)
                },
            },
    {
        match self.lookup(request.method.as_str()) {
            Some(service) => Dispatch::Forward { service, request },
            None => {
                let message = joined("Method not found: ", request.method.as_str());
                Dispatch::Reply(
                    JsonRpcResponse::from_error(
                        request.id,
                        ResponseError { code: METHOD_NOT_FOUND, message },
                    ),
                )
            },
        }
    }
}

/// Whether `response` is what the table `table` may answer to `req`: for a
/// method without a route, the method-not-found response; for a method with
/// one, the response under the request's id that carries an outcome which a
/// copy of the route's service may give.
pub open spec fn routed<S: CloneableService<JsonRpcRequest, Json, ResponseError>>(
    table: Map<Seq<char>, S>,
    req: JsonRpcRequest,
    response: ResponseEnvelope,
) -> bool {
    if table.contains_key(req@.method) {
        exists|copy: S, outcome: Result<Json, ResponseError>|
            {
                &&& cloned(table[req@.method], copy)
                &&& #[trigger] copy.answers(req, outcome)
                &&& response == ResponseEnvelope::from_outcome(req@.id, outcome_view(outcome))
            }
    } else {
        response == method_not_found(req@)
    }
}

impl<'a, S> Service<JsonRpcRequest> for RouterService<'a, S> where
    S: CloneableService<JsonRpcRequest, Json, ResponseError>,
 {
    type Response = JsonRpcResponse;

    type Error = ();

    /// The router never fails; its responses are those of `routed`.
    open spec fn answers(&self, req: JsonRpcRequest, outcome: Result<JsonRpcResponse, ()>) -> bool {
        outcome matches Ok(response) && routed(self@, req, response@)
    }

    /// Answers `req`: always with a response, never with an error of its
    /// own. Where the method has no route the response is the
    /// method-not-found response. Where it has one, a copy of the route's
    /// service is called, and the response carries what the copy answered, its
    /// result or its error, under the request's id. The table stays what it
    /// was.
    fn call(&mut self, req: JsonRpcRequest) -> (r: Result<JsonRpcResponse, ()>)
        ensures
            final(self)@ == old(self)@,
            r matches Ok(response) && {
                &&& routed(old(self)@, req, response@)
                &&& response@.id == req@.id
                &&& response@.well_formed()
            },
    {
        match self.route(req) {
            Dispatch::Reply(response) => Ok(response),
            Dispatch::Forward { service, request } => {
                let id = request.id;
                let mut copy = service.clone();
                let ghost asked = copy;
                let outcome = copy.call(request);
                let ghost given = outcome;
                let response = JsonRpcResponse::from_outcome(id, outcome);
                proof {
                    assert(cloned(*service, asked));
                    assert(asked.answers(req, given));
                }
                Ok(response)
            },
        }
    }
}

} // verus!
