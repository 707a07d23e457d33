//! The messages between client and server and how they travel.

pub mod frame;
pub mod requests;
pub mod responses;

pub use requests::{Request, RequestInfo};
pub use responses::{RequestResult, Response};
