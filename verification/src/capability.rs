//! The capability bridge's catalog and result protocol.
//!
//! A fixed, versioned catalog of named native functions is exposed into
//! the script namespace. The effects themselves (file read, file write,
//! file delete, network fetch) are performed by the embedding caller on
//! its own execution resources; this module fixes the catalog — names,
//! arities, synchrony — and converts each native outcome into the script's
//! failure-signaling channel, never into an abort.
use vstd::prelude::*;
use crate::errors::CapabilityError;
use crate::value::HostValue;

verus! {

/// The names of the catalog, a closed set.
#[derive(Clone, Copy, PartialEq, Eq, Structural, Debug)]
pub enum CapabilityName {
    ReadFile,
    WriteFile,
    RemoveFile,
    Fetch,
}

/// One native capability invocation: independent of every other, created
/// per call and discarded once its outcome is delivered.
#[derive(Debug)]
pub struct CapabilityInvocation {
    pub name: CapabilityName,
    pub args: Vec<String>,
    pub outcome: Result<HostValue, CapabilityError>,
}

/// The fixed arity of each catalog entry.
pub open spec fn spec_arity(name: CapabilityName) -> nat {
    match name {
        CapabilityName::ReadFile => 1,
        CapabilityName::WriteFile => 2,
        CapabilityName::RemoveFile => 1,
        CapabilityName::Fetch => 1,
    }
}

/// Only the file delete runs synchronously on the execution thread; every
/// other entry schedules its effect elsewhere and resolves a promise.
pub open spec fn spec_is_async(name: CapabilityName) -> bool {
    name != CapabilityName::RemoveFile
}

/// The catalog, in its fixed registration order.
pub fn capability_catalog() -> (r: Vec<CapabilityName>)
    ensures
        r@ == seq![
            CapabilityName::ReadFile,
            CapabilityName::WriteFile,
            CapabilityName::RemoveFile,
            CapabilityName::Fetch,
        ],
{
    let mut out: Vec<CapabilityName> = Vec::new();
    out.push(CapabilityName::ReadFile);
    out.push(CapabilityName::WriteFile);
    out.push(CapabilityName::RemoveFile);
    out.push(CapabilityName::Fetch);
    proof {
        assert(out@ =~= seq![
            CapabilityName::ReadFile,
            CapabilityName::WriteFile,
            CapabilityName::RemoveFile,
            CapabilityName::Fetch,
        ]);
    }
    out
}

/// The fixed arity of each catalog entry.
pub fn arity(name: CapabilityName) -> (r: usize)
    ensures
        r == spec_arity(name),
{
    match name {
        CapabilityName::ReadFile => 1,
        CapabilityName::WriteFile => 2,
        CapabilityName::RemoveFile => 1,
        CapabilityName::Fetch => 1,
    }
}

/// Whether the entry schedules its effect off the execution thread.
pub fn is_async(name: CapabilityName) -> (r: bool)
    ensures
        r == spec_is_async(name),
{
    match name {
        CapabilityName::RemoveFile => false,
        _ => true,
    }
}

/// Do the arguments of an invocation match the entry's fixed arity?
pub fn args_match(name: CapabilityName, args: &Vec<String>) -> (r: bool)
    ensures
        r == (args@.len() == spec_arity(name)),
{
    args.len() == arity(name)
}

/// Deliver a file read's native outcome into script space: the contents as
/// a string value, or the preserved cause as an `Io` failure.
pub fn settle_read_file(native: Result<String, String>) -> (r: Result<HostValue, CapabilityError>)
    ensures
        match native {
            Ok(contents) => r matches Ok(v) && v == HostValue::Text(contents),
            Err(cause) => r == Err::<HostValue, CapabilityError>(CapabilityError::Io(cause)),
        },
{
    match native {
        Ok(contents) => Ok(HostValue::Text(contents)),
        Err(cause) => Err(CapabilityError::Io(cause)),
    }
}

/// Deliver a file write's native outcome into script space: unit on
/// success, or the preserved cause as an `Io` failure.
pub fn settle_write_file(native: Result<(), String>) -> (r: Result<HostValue, CapabilityError>)
    ensures
        match native {
            Ok(_) => r matches Ok(v) && v == HostValue::Null,
            Err(cause) => r == Err::<HostValue, CapabilityError>(CapabilityError::Io(cause)),
        },
{
    match native {
        Ok(_) => Ok(HostValue::Null),
        Err(cause) => Err(CapabilityError::Io(cause)),
    }
}

/// Deliver a file delete's native outcome into script space: unit on
/// success, or the preserved cause as an `Io` failure — observable inside
/// script space, never a host-level panic.
pub fn settle_remove_file(native: Result<(), String>) -> (r: Result<HostValue, CapabilityError>)
    ensures
        match native {
            Ok(_) => r matches Ok(v) && v == HostValue::Null,
            Err(cause) => r == Err::<HostValue, CapabilityError>(CapabilityError::Io(cause)),
        },
{
    match native {
        Ok(_) => Ok(HostValue::Null),
        Err(cause) => Err(CapabilityError::Io(cause)),
    }
}

/// Deliver a fetch's native outcome into script space: the response body
/// as a string value, or the preserved cause as a `Network` failure.
pub fn settle_fetch(native: Result<String, String>) -> (r: Result<HostValue, CapabilityError>)
    ensures
        match native {
            Ok(body) => r matches Ok(v) && v == HostValue::Text(body),
            Err(cause) => r == Err::<HostValue, CapabilityError>(CapabilityError::Network(cause)),
        },
{
    match native {
        Ok(body) => Ok(HostValue::Text(body)),
        Err(cause) => Err(CapabilityError::Network(cause)),
    }
}

} // verus!
