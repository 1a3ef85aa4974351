//! Request validation and reply mapping for an HTTP gateway in front of a
//! multi-send contract: every request is checked, turned into exactly one
//! contract call, and the outcome of that call is turned into a reply.
pub mod address;
pub mod call;
pub mod laws;
pub mod reply;
pub mod request;
pub mod uint;
