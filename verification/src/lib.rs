//! Error monitoring and request tracing for a web server, through the Sentry
//! SDK.
//!
//! The fairing hooks into the life of the server. When the server starts, it
//! decides from the settings whether a client is to be started. When a
//! request comes in, it starts a trace span named after the method and the
//! path. When the response goes out, it gives the span the status that
//! belongs to the status code, attaches what it read of the request, and
//! finishes the span.
//!
//! What each step does is stated in its contract and proved. What the SDK
//! does with a span is the SDK's own business and is not proved here.

pub mod fairing;
pub mod headers;
pub mod rate;
pub mod request;
pub mod sdk;
pub mod span;
pub mod status;

pub use fairing::{RocketSentry, RocketSentryBuilder};
