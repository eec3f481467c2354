//! A typed client core for the Guild Wars 2 web API: request construction,
//! authentication, error classification, the response state machine and the
//! rate limiter, with every contract machine-checked.

pub mod blocking;
pub mod client;
pub mod endpoint;
pub mod error;
pub mod json;
pub mod language;
pub(crate) mod private;
pub mod rate_limit;
pub mod request;
pub mod response;
pub mod text;
pub mod time;
pub mod uri;
pub mod v2;

pub use error::{ApiError, Error, JsonError, TransportError, UsageError};
pub use language::Language;
pub use request::{Authentication, Request, RequestBuilder};
pub use uri::{IdParameter, Identifier, ResourceDescriptor};
pub use response::{Dispatch, Event, Progress, ResponseFuture, State, Step};
pub use client::{Builder, Client, ClientExecutor, Settings};
