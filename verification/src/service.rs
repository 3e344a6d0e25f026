//! The unit of work that a method name is routed to.

use vstd::prelude::*;

verus! {

/// A unit of work: it takes a request and gives a response or an error. What
/// it gives is its own business: the trait only has each service name the
/// answers it may give, so that what a caller makes of an answer can be said
/// of the very answer that was given.
///
/// A call returns when the work is done. A service whose work has to wait, for
/// a disk or a network, is better called by whoever drives the connection,
/// between two of its steps: see `transport::handle_client`, which hands the
/// request out and takes the outcome in.
pub trait Service<Request> {
    type Response;

    type Error;

    /// Whether `outcome` is an answer that the service may give to `req`.
    /// Each service says this of itself, and `call` is held to it; a service
    /// that says nothing may give any answer.
    open spec fn answers(
        &self,
        req: Request,
        outcome: Result<Self::Response, Self::Error>,
    ) -> bool {
        true
    }

    fn call(&mut self, req: Request) -> (r: Result<Self::Response, Self::Error>)
        ensures
            old(self).answers(req, r),
    ;
}

/// A service of which each call gets a copy of its own, so that what one call
/// does to its service no other call sees.
pub trait CloneableService<Req, Res, Failure>: Service<
    Req,
    Response = Res,
    Error = Failure,
> + Clone {

}

impl<Req, Res, Failure, T> CloneableService<Req, Res, Failure> for T where
    T: Service<Req, Response = Res, Error = Failure> + Clone,
 {

}

} // verus!
