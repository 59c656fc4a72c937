//! A small request-dispatch layer: a request façade with memoized form
//! decoding, a response builder, and a server harness that hands each
//! request to a shared handler and context.

pub mod cookies;
pub mod form;
pub mod handler;
pub mod pairs;
pub mod request;
pub mod response;
pub mod server;

pub use cookies::Cookie;
pub use handler::Handler;
pub use request::Request;
pub use response::Response;
pub use server::Http;
