//! Host core for an embedded script engine.
//!
//! The crate holds the verified core of a script host: canonical module
//! specifier resolution (including reserved virtual names), synthesis of the
//! virtual modules, media-kind classification and transpilation gating of
//! loaded sources, the fixed catalog of native capabilities exposed into the
//! sandbox, and the execution driver's invocation protocol that marshals a
//! request and a context value across the host/script boundary.

pub mod capability;
pub mod driver;
pub mod errors;
pub mod specifier;
pub mod loader;
pub mod media;
pub mod registry;
pub mod text;
pub mod transpile;
pub mod value;
