//! The error taxonomy of the host core.
//!
//! Failures during module loading abort only the graph build and are reported
//! to the top-level caller; capability failures are delivered into script
//! space; nothing in the verified core aborts the process.
use vstd::prelude::*;

verus! {

/// Failure of specifier resolution.
#[derive(Clone, PartialEq, Eq, Debug)]
pub enum ResolutionError {
    /// The input is neither a recognized virtual name nor resolvable
    /// relative to the referrer (malformed URL, or a relative specifier
    /// with no usable referrer).
    InvalidSpecifier,
}

/// Failure of source loading.
#[derive(Clone, PartialEq, Eq, Debug)]
pub enum LoadError {
    /// A `virtual`-scheme name that the registry does not contain.
    VirtualModuleNotFound,
    /// A file whose extension is not in the fixed media-kind table.
    UnsupportedMediaKind,
    /// The underlying read failed; the cause message is preserved.
    Io(String),
}

/// Failure of the external compile step for a single module.
#[derive(Clone, PartialEq, Eq, Debug)]
pub enum CompileError {
    /// Compiler-side diagnostics for a syntax error in the source.
    Syntax(String),
}

/// Failure of one native capability invocation, delivered into script space.
#[derive(Clone, PartialEq, Eq, Debug)]
pub enum CapabilityError {
    /// A file-system effect failed; the cause message is preserved.
    Io(String),
    /// A network transfer failed; the cause message is preserved.
    Network(String),
}

/// Any failure while building the module graph, tagged by its phase.
#[derive(Clone, PartialEq, Eq, Debug)]
pub enum GraphFailure {
    Resolution(ResolutionError),
    Load(LoadError),
    Compile(CompileError),
}

/// Failure of one whole execution, as reported to the top-level caller.
#[derive(Clone, PartialEq, Eq, Debug)]
pub enum RunError {
    /// The entry export is absent or not callable.
    EntryNotFound,
    /// The script raised an uncaught failure during evaluation or invocation.
    UncaughtScriptFailure(String),
    /// Resolution, loading or compilation failed while building the graph.
    ModuleGraphFailure(GraphFailure),
}

} // verus!
