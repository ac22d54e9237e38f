//! Backend lifecycle supervision for a desktop shell that runs a local
//! worker process: locating a runtime, guarding against duplicate
//! instances, building the worker invocation, discovering the endpoint the
//! worker bound to, validating and classifying proxied requests, and
//! planning idempotent teardown.
//!
//! All decision logic lives here with contracts; the surrounding process,
//! file and network plumbing hands in plain values and carries out the
//! returned plans.

pub mod chars;
pub mod discovery;
pub mod guard;
pub mod json;
pub mod lifecycle;
pub mod locator;
pub mod ports;
pub mod proxy;
pub mod supervisor;
pub mod text;
