//! CORS policy engine with verified decision logic.
//!
//! The crate decides, for an inbound cross-origin request and a fixed
//! origin policy, whether the request is permitted, builds the matching
//! preflight or rejection response, and decorates downstream responses
//! and errors with the `Access-Control-Allow-Origin` header.

pub mod config;
pub mod decision;
pub mod dispatch;
pub mod origin;
pub mod request;
pub mod response;

pub use config::{CorsMiddleware, CorsPolicy};
pub use decision::{CorsDecision, RejectReason};
pub use origin::Origin;
pub use request::{RequestClass, RequestView};
pub use response::{HandlerError, HttpResponse};
