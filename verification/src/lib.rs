//! Request authentication in front of an HTTP handler: a request is admitted
//! only when its AWS SigV4 signature verifies over the whole, buffered body.

pub mod body;
pub mod interception;
pub mod outcome;
pub mod principal;
pub mod request;
pub mod response;
pub mod service;
pub mod traces;
