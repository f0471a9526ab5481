//! Austenite
//!
//! A resource decision engine for HTTP.  A [`Resource`] answers questions
//! about one addressable entity through hooks, each with a default; the
//! engine maps a request to one response by walking a fixed graph of
//! decisions over those hooks, negotiating the representation and evaluating
//! the preconditions of the request on the way.
//!
//! - [`graph`] holds the decision graph as a table, with the proofs that
//!   every walk ends and that every node can be reached.
//! - [`preference`] and [`content_neg`] choose the media type, language,
//!   charset and content coding that best answer the client's preferences.
//! - [`precondition`] compares entity tags and modification times.
//! - [`hyper_headers`] parses and formats the headers that hyper does not
//!   supply in the form the engine reads.
//! - [`message`] holds the request and the response as plain values.
//! - [`resource`] holds the hooks and the engine.
//! - [`outcomes`] proves what the contract of the engine comes to for whole
//!   requests.
//! - [`paths`] proves that every walk of the graph can be taken.
//!
//! ```ignore
//! use austenite::message::{Method, Request, Response};
//! use austenite::resource::{resource_handle, ResourceError};
//! use austenite::Resource;
//!
//! struct Hello;
//!
//! impl Resource for Hello {
//!     fn get(&self, _: &Request, mut resp: Response) -> Result<Response, ResourceError> {
//!         resp.set_status_and_body(200, "hello");
//!         Ok(resp)
//!     }
//! }
//!
//! let request = Request::new(Method::Get, "/".to_string());
//! let response = resource_handle(&Hello, &request).unwrap();
//! assert_eq!(response.status, Some(200));
//! ```
pub mod content_neg;
pub mod graph;
pub mod hyper_headers;
pub mod message;
pub mod outcomes;
pub mod paths;
pub mod precondition;
pub mod preference;
pub mod resource;

pub use hyper_headers::{AcceptCharset, Charset};
pub use resource::Resource;
