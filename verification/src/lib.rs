//! A minimal HTTP intermediary: `GET /` is answered with a short text, the
//! body of every `POST` is relayed to one fixed upstream whose response goes
//! back to the caller untouched, and everything else is not found.
//!
//! The crate holds the decisions only. Accepting connections and talking to
//! the upstream are left to the program around it, which hands each request
//! to [`proxy::Proxy::call`] and each upstream outcome to
//! [`forward::Forwarder::conclude`].

pub mod error;
pub mod forward;
pub mod headers;
pub mod laws;
pub mod method;
pub mod proxy;
pub mod request;
pub mod response;
pub mod router;

pub use crate::error::ProxyError;
pub use crate::forward::{Forwarder, Reply};
pub use crate::method::Method;
pub use crate::proxy::{spawn_service, Handling, Proxy};
pub use crate::request::{InboundRequest, OutboundRequest};
pub use crate::response::Response;
pub use crate::router::{route, Route};
