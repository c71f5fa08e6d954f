//! HTTP Basic authentication for the requests of a web server.
//!
//! A [`CheckAuth`] policy judges a username and a password. [`decide`] takes a
//! policy and the credentials of a request, [`before`] a policy and the lines
//! of the request's `Authorization` header. Either lets the request pass or
//! denies it with status 401, a message and, where no credentials came at all,
//! a `WWW-Authenticate` challenge. Nothing else happens: no state is kept and
//! nothing is written.

pub mod credentials;
pub mod decision;
pub mod error;
pub mod laws;
pub mod policy;
pub mod text;

pub use credentials::Credentials;
pub use decision::{before, decide, Decision};
pub use error::AuthError;
pub use policy::{CheckAuth, ClosurePolicy, SingleUser};
