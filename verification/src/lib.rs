//! Command-dispatch core of a command-line front end to a key-management
//! service.
//!
//! The core turns validated subcommand input into a provider-neutral
//! operation descriptor (key attributes, usage policy, permitted algorithm),
//! resolves the backend provider, and validates the shape of the service's
//! response. All of that is pure logic and is verified here; the transport
//! to the service, flag parsing and authentication-material acquisition live
//! outside the library and hand it plain values.

pub mod attributes;
pub mod dispatch;
pub mod error;
pub mod operation;
pub mod provider;
