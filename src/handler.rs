//! The interface that routers implement.
use vstd::prelude::*;

use crate::request::{Request, RequestView};
use crate::response::{Response, ResponseView};

verus! {

/// A router: it is called once for each request, with the request, the
/// response to fill in and the server's shared context. It returns nothing;
/// all it does is done to the response (and to the request's scratch buffer
/// and form cache).
pub trait Handler<T> {
    /// What this router does: `out` is a response it may leave when handed
    /// the request `req`, the response `res` and the context `ctx`.
    spec fn handles(&self, req: RequestView, res: ResponseView, ctx: T, out: ResponseView) -> bool;

    fn handler(&self, req: &mut Request, res: &mut Response, ctx: &T)
        requires
            old(req)@.wf(),
        ensures
            self.handles(old(req)@, old(res)@, *ctx, final(res)@),
    ;
}

} // verus!
