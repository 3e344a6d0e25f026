//! The service that answers a request with its own parameters.

use crate::json::Json;
use crate::jsonrpc::{JsonRpcRequest, ResponseError};
use crate::service::Service;
use vstd::prelude::*;

verus! {

#[derive(Clone, Copy, Debug)]
pub struct EchoService;

impl Service<JsonRpcRequest> for EchoService {
    type Response = Json;

    type Error = ResponseError;

    /// The one answer is the request's parameters.
    open spec fn answers(&self, req: JsonRpcRequest, outcome: Result<Json, ResponseError>) -> bool {
        outcome matches Ok(result) && result@ == req@.params
    }

    /// Succeeds on every request, with the request's parameters as they are.
    fn call(&mut self, req: JsonRpcRequest) -> (r: Result<Json, ResponseError>)
        ensures
            r matches Ok(result) && result@ == req@.params,
    {
        Ok(req.params)
    }
}

} // verus!
