//! The server harness: a handler, the context shared by all requests, and
//! the settings that the transport and the request façade need.
use vstd::prelude::*;

use crate::handler::Handler;
use crate::pairs::pairs_view;
use crate::request::{Request, RequestView};
use crate::response::{fresh_response, opt_bytes, Response, ResponseView, STATUS_OK};

verus! {

/// An HTTP server: a router that dispatches all requests, and a context
/// that every request can read.
#[derive(Clone)]
pub struct Http<T, H> {
    handler: H,
    context: T,
    num_threads: usize,
    sanitize: bool,
}

impl<T, H: Handler<T>> Http<T, H> {
    pub closed spec fn spec_handler(&self) -> H {
        self.handler
    }

    pub closed spec fn spec_context(&self) -> T {
        self.context
    }

    pub closed spec fn spec_threads(&self) -> usize {
        self.num_threads
    }

    pub closed spec fn spec_sanitize(&self) -> bool {
        self.sanitize
    }

    /// A server with one event loop that leaves form values as decoded.
    pub fn new(handler: H, context: T) -> (r: Self)
        ensures
            r.spec_handler() == handler,
            r.spec_context() == context,
            r.spec_threads() == 1,
            !r.spec_sanitize(),
    {
        Http { handler, context, num_threads: 1, sanitize: false }
    }

    /// Sets the number of event loops to run.
    pub fn threads(self, threads: usize) -> (r: Self)
        ensures
            r.spec_handler() == self.spec_handler(),
            r.spec_context() == self.spec_context(),
            r.spec_threads() == threads,
            r.spec_sanitize() == self.spec_sanitize(),
    {
        Http { num_threads: threads, ..self }
    }

    /// Sets whether form values are HTML-escaped in every request.
    pub fn sanitize(self, on: bool) -> (r: Self)
        ensures
            r.spec_handler() == self.spec_handler(),
            r.spec_context() == self.spec_context(),
            r.spec_threads() == self.spec_threads(),
            r.spec_sanitize() == on,
    {
        Http { sanitize: on, ..self }
    }

    pub fn num_threads(&self) -> (r: usize)
        ensures
            r == self.spec_threads(),
    {
        self.num_threads
    }

    pub fn sanitizes(&self) -> (r: bool)
        ensures
            r == self.spec_sanitize(),
    {
        self.sanitize
    }

    pub fn context(&self) -> (r: &T)
        ensures
            *r == self.spec_context(),
    {
        &self.context
    }

    /// The request façade for a request that the transport parsed, with this
    /// server's sanitize setting.
    pub fn request(
        &self,
        method: String,
        path: String,
        version: String,
        headers: Vec<(String, String)>,
        body: Option<Vec<u8>>,
    ) -> (r: Request)
        ensures
            r@ == (RequestView {
                method: method@,
                path: path@,
                version: version@,
                headers: pairs_view(headers@),
                body: opt_bytes(body),
                sanitize: self.spec_sanitize(),
                form: None,
                body_reads: 0,
                user_data: Seq::empty(),
            }),
            r@.wf(),
    {
        Request::new(method, path, version, headers, body, self.sanitize)
    }

    /// Serves one request: a fresh façade with this server's sanitize
    /// setting and a fresh response (status 200, no header, no body) go to
    /// the handler together with the server's own context, and the response
    /// comes back as the handler left it.
    pub fn call(
        &self,
        method: String,
        path: String,
        version: String,
        headers: Vec<(String, String)>,
        body: Option<Vec<u8>>,
    ) -> (r: Response)
        ensures
            self.spec_handler().handles(
                RequestView {
                    method: method@,
                    path: path@,
                    version: version@,
                    headers: pairs_view(headers@),
                    body: opt_bytes(body),
                    sanitize: self.spec_sanitize(),
                    form: None,
                    body_reads: 0,
                    user_data: Seq::empty(),
                },
                fresh_response(),
                self.spec_context(),
                r@,
            ),
    {
        let mut req = self.request(method, path, version, headers, body);
        let mut res = Response::new();
        self.handler.handler(&mut req, &mut res, &self.context);
        res
    }
}

/// A handler that leaves every response as it was handed over makes a
/// server answer with status 200, no header and no body.
pub proof fn lemma_untouched_response_is_default<T, H: Handler<T>>(
    handler: H,
    req: RequestView,
    ctx: T,
    out: ResponseView,
)
    requires
        handler.handles(req, fresh_response(), ctx, out),
        forall|rq: RequestView, rs: ResponseView, c: T, o: ResponseView|
            #[trigger] handler.handles(rq, rs, c, o) ==> o == rs,
    ensures
        out.status == STATUS_OK,
        out.headers.len() == 0,
        out.body is None,
{
}

} // verus!
