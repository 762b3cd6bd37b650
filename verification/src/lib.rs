//! The core of a small non-blocking HTTP/1.1 server: the per-connection state
//! machine, the bookkeeping of the reactor that drives it, and the responses
//! it sends. Sockets, timers and the event loop stay with the caller, who
//! reports what they did and carries out what the core decides.

pub mod code;
pub mod connection;
pub mod laws;
pub mod miostart;
pub mod parser;
pub mod request;
pub mod response;
pub mod server;
pub mod text;
pub mod token_gen;
pub mod typemod;

pub use code::Code;
pub use miostart::MioStart;
pub use request::PreRequest;
pub use request::Request;
pub use response::Response;
pub use typemod::Type;
