//! The execution driver's invocation protocol.
//!
//! One run is a fixed sequence: build the module graph, evaluate it, drain
//! pending work, obtain the exported entry callable, invoke it with the
//! converted request and context values, drain again if the return value is
//! pending, and deliver the settled value — or the first failure — to the
//! caller. The engine itself is an external collaborator; the protocol's
//! decisions are this pure transition function, which the embedding loop
//! feeds with engine events and obeys through [`Driver::next_action`].
use vstd::prelude::*;
use crate::errors::{GraphFailure, ResolutionError, RunError};
use crate::specifier::{resolve, resolved_id, spec_resolve, ModuleSpecifier, Scheme};
use crate::value::{wf_value, HostValue};

verus! {

/// How one execution is entered.
pub enum EntryMode {
    /// Load the caller's module as the root of the graph and call its
    /// `handle` export.
    ModuleGraph(ModuleSpecifier),
    /// Evaluate the fixed bootstrap script, which imports the virtual
    /// query-handler module and calls its `handle` export.
    Bootstrap,
}

/// Where one execution stands.
pub enum Phase {
    /// Building the module graph via resolve, load and transpile.
    BuildGraph,
    /// Evaluating the loaded graph.
    Evaluate,
    /// Draining pending work to quiescence before the export lookup.
    DrainBeforeLookup,
    /// Obtaining the entry callable from the module namespace.
    Lookup,
    /// Converting the request and context in and invoking the callable.
    Invoke,
    /// The return value is pending; draining until it settles.
    DrainAfterInvoke,
    /// The run is over; the result is ready for the caller.
    Finished(Result<HostValue, RunError>),
}

/// What the engine reports back to the driver.
pub enum EngineEvent {
    /// Every module of the graph resolved, loaded and transpiled.
    GraphReady,
    /// Resolution, loading or compilation of some module failed.
    GraphFailed(GraphFailure),
    /// The graph evaluated to completion.
    Evaluated,
    /// The script raised an uncaught failure.
    ScriptFailed(String),
    /// The event loop reached quiescence.
    Drained,
    /// The named export exists; `callable` says whether it is a function.
    ExportFound { callable: bool },
    /// The named export is absent.
    ExportMissing,
    /// The invocation returned a settled value, already decoded.
    Returned(HostValue),
    /// The invocation returned a pending asynchronous value.
    ReturnedPending,
    /// The pending value settled, and was decoded.
    Settled(HostValue),
}

/// What the embedding loop must do next.
pub enum DriverAction {
    BuildModuleGraph,
    EvaluateGraph,
    DrainEventLoop,
    LookupExport,
    InvokeExport,
    AwaitSettlement,
    Deliver,
}

/// The transition rules of one execution.
///
/// Failures map onto the error taxonomy exactly: a graph failure is
/// wrapped as `ModuleGraphFailure`, a missing or non-callable export is
/// `EntryNotFound`, an uncaught script failure at any stage is
/// `UncaughtScriptFailure`; a returned or settled value is delivered
/// unchanged. `Finished` is absorbing, and an event out of protocol leaves
/// the phase as it is.
pub open spec fn spec_step(phase: Phase, event: EngineEvent) -> Phase {
    match (phase, event) {
        (Phase::BuildGraph, EngineEvent::GraphReady) => Phase::Evaluate,
        (Phase::BuildGraph, EngineEvent::GraphFailed(f)) => Phase::Finished(
            Err(RunError::ModuleGraphFailure(f)),
        ),
        (Phase::Evaluate, EngineEvent::Evaluated) => Phase::DrainBeforeLookup,
        (Phase::Evaluate, EngineEvent::ScriptFailed(m)) => Phase::Finished(
            Err(RunError::UncaughtScriptFailure(m)),
        ),
        (Phase::DrainBeforeLookup, EngineEvent::Drained) => Phase::Lookup,
        (Phase::DrainBeforeLookup, EngineEvent::ScriptFailed(m)) => Phase::Finished(
            Err(RunError::UncaughtScriptFailure(m)),
        ),
        (Phase::Lookup, EngineEvent::ExportFound { callable }) => if callable {
            Phase::Invoke
        } else {
            Phase::Finished(Err(RunError::EntryNotFound))
        },
        (Phase::Lookup, EngineEvent::ExportMissing) => Phase::Finished(
            Err(RunError::EntryNotFound),
        ),
        (Phase::Invoke, EngineEvent::Returned(v)) => Phase::Finished(Ok(v)),
        (Phase::Invoke, EngineEvent::ReturnedPending) => Phase::DrainAfterInvoke,
        (Phase::Invoke, EngineEvent::ScriptFailed(m)) => Phase::Finished(
            Err(RunError::UncaughtScriptFailure(m)),
        ),
        (Phase::DrainAfterInvoke, EngineEvent::Settled(v)) => Phase::Finished(Ok(v)),
        (Phase::DrainAfterInvoke, EngineEvent::ScriptFailed(m)) => Phase::Finished(
            Err(RunError::UncaughtScriptFailure(m)),
        ),
        (p, _) => p,
    }
}

/// One execution's driver: the protocol state plus the two values that
/// will be marshaled into the invocation.
pub struct Driver {
    pub phase: Phase,
    pub request: HostValue,
    pub context: HostValue,
}

impl Driver {
    /// A fresh driver, ready to build the graph.
    pub fn new(request: HostValue, context: HostValue) -> (r: Driver)
        ensures
            r.phase == Phase::BuildGraph,
            r.request == request,
            r.context == context,
    {
        Driver { phase: Phase::BuildGraph, request, context }
    }

    /// Feed one engine event through the transition rules. The request and
    /// context values are never touched by stepping.
    pub fn step(&mut self, event: EngineEvent)
        ensures
            final(self).phase == spec_step(old(self).phase, event),
            final(self).request == old(self).request,
            final(self).context == old(self).context,
    {
        let mut prev = Phase::BuildGraph;
        core::mem::swap(&mut prev, &mut self.phase);
        self.phase = step_phase(prev, event);
    }

    /// What the embedding loop must do in the current phase.
    pub fn next_action(&self) -> (r: DriverAction)
        ensures
            r == (match self.phase {
                Phase::BuildGraph => DriverAction::BuildModuleGraph,
                Phase::Evaluate => DriverAction::EvaluateGraph,
                Phase::DrainBeforeLookup => DriverAction::DrainEventLoop,
                Phase::Lookup => DriverAction::LookupExport,
                Phase::Invoke => DriverAction::InvokeExport,
                Phase::DrainAfterInvoke => DriverAction::AwaitSettlement,
                Phase::Finished(_) => DriverAction::Deliver,
            }),
    {
        match self.phase {
            Phase::BuildGraph => DriverAction::BuildModuleGraph,
            Phase::Evaluate => DriverAction::EvaluateGraph,
            Phase::DrainBeforeLookup => DriverAction::DrainEventLoop,
            Phase::Lookup => DriverAction::LookupExport,
            Phase::Invoke => DriverAction::InvokeExport,
            Phase::DrainAfterInvoke => DriverAction::AwaitSettlement,
            Phase::Finished(_) => DriverAction::Deliver,
        }
    }
}

/// The transition rules, executably.
pub fn step_phase(phase: Phase, event: EngineEvent) -> (r: Phase)
    ensures
        r == spec_step(phase, event),
{
    match (phase, event) {
        (Phase::BuildGraph, EngineEvent::GraphReady) => Phase::Evaluate,
        (Phase::BuildGraph, EngineEvent::GraphFailed(f)) => Phase::Finished(
            Err(RunError::ModuleGraphFailure(f)),
        ),
        (Phase::Evaluate, EngineEvent::Evaluated) => Phase::DrainBeforeLookup,
        (Phase::Evaluate, EngineEvent::ScriptFailed(m)) => Phase::Finished(
            Err(RunError::UncaughtScriptFailure(m)),
        ),
        (Phase::DrainBeforeLookup, EngineEvent::Drained) => Phase::Lookup,
        (Phase::DrainBeforeLookup, EngineEvent::ScriptFailed(m)) => Phase::Finished(
            Err(RunError::UncaughtScriptFailure(m)),
        ),
        (Phase::Lookup, EngineEvent::ExportFound { callable }) => if callable {
            Phase::Invoke
        } else {
            Phase::Finished(Err(RunError::EntryNotFound))
        },
        (Phase::Lookup, EngineEvent::ExportMissing) => Phase::Finished(
            Err(RunError::EntryNotFound),
        ),
        (Phase::Invoke, EngineEvent::Returned(v)) => Phase::Finished(Ok(v)),
        (Phase::Invoke, EngineEvent::ReturnedPending) => Phase::DrainAfterInvoke,
        (Phase::Invoke, EngineEvent::ScriptFailed(m)) => Phase::Finished(
            Err(RunError::UncaughtScriptFailure(m)),
        ),
        (Phase::DrainAfterInvoke, EngineEvent::Settled(v)) => Phase::Finished(Ok(v)),
        (Phase::DrainAfterInvoke, EngineEvent::ScriptFailed(m)) => Phase::Finished(
            Err(RunError::UncaughtScriptFailure(m)),
        ),
        (p, _) => p,
    }
}

/// The round trip through the asynchronous boundary is lossless: a value
/// returned settled is delivered to the caller unchanged, and a value that
/// settles after a pending return is delivered unchanged too.
pub proof fn lemma_result_delivered_unchanged(v: HostValue)
    ensures
        spec_step(Phase::Invoke, EngineEvent::Returned(v)) == Phase::Finished(
            Ok::<HostValue, RunError>(v),
        ),
        spec_step(Phase::DrainAfterInvoke, EngineEvent::Settled(v)) == Phase::Finished(
            Ok::<HostValue, RunError>(v),
        ),
{
}

/// One whole successful run, at the specification level: after the graph
/// is ready, the evaluation completes, the drain reaches quiescence and a
/// callable entry export is found, the run delivers exactly the value the
/// invocation produced — whether it returned settled or settled only
/// after a further drain.
pub proof fn lemma_successful_run_delivers(v: HostValue, pending: bool)
    ensures
        ({
            let after_lookup = spec_step(
                spec_step(
                    spec_step(
                        spec_step(Phase::BuildGraph, EngineEvent::GraphReady),
                        EngineEvent::Evaluated,
                    ),
                    EngineEvent::Drained,
                ),
                EngineEvent::ExportFound { callable: true },
            );
            let end = if pending {
                spec_step(
                    spec_step(after_lookup, EngineEvent::ReturnedPending),
                    EngineEvent::Settled(v),
                )
            } else {
                spec_step(after_lookup, EngineEvent::Returned(v))
            };
            end == Phase::Finished(Ok::<HostValue, RunError>(v))
        }),
{
}

/// Any failure while building the module graph — an invalid specifier, an
/// unknown virtual name, an unsupported media kind, a compile diagnostic —
/// finishes the run with exactly that failure wrapped as a module-graph
/// failure, observable by the caller; it never aborts the host.
pub proof fn lemma_graph_failure_reported(f: GraphFailure)
    ensures
        spec_step(Phase::BuildGraph, EngineEvent::GraphFailed(f)) == Phase::Finished(
            Err::<HostValue, RunError>(RunError::ModuleGraphFailure(f)),
        ),
{
}

/// A finished run is final: no further engine event moves it.
pub proof fn lemma_finished_absorbing(res: Result<HostValue, RunError>, event: EngineEvent)
    ensures
        spec_step(Phase::Finished(res), event) == Phase::Finished(res),
{
}

/// The name of the entry export that every loaded module must provide.
pub fn entry_export_name() -> (r: &'static str)
    ensures
        r@ == "handle"@,
{
    "handle"
}

/// The fixed bootstrap script of the second entry mode: it imports the
/// virtual query-handler module and re-exports its `handle`.
pub fn bootstrap_source() -> (r: &'static str)
    ensures
        r@ == "export { handle } from \"jet:query\";\n"@,
{
    "export { handle } from \"jet:query\";\n"
}

/// Decide the entry mode of one run.
///
/// A caller-supplied entry resolves against the given referrer (its
/// working directory, as a `file` specifier); a bare path resolves like a
/// relative one; resolution failure is reported as a module-graph
/// failure. No entry at all selects the bootstrap mode.
pub fn plan_entry(entry: Option<&str>, referrer: &ModuleSpecifier) -> (r: Result<
    EntryMode,
    RunError,
>)
    ensures
        match entry {
            None => r matches Ok(EntryMode::Bootstrap),
            Some(e) => match spec_resolve(e@, referrer.scheme, referrer.path@) {
                Ok(id) => (r matches Ok(EntryMode::ModuleGraph(m)) && m.id() == id),
                Err(err) => r == Err::<EntryMode, RunError>(
                    RunError::ModuleGraphFailure(GraphFailure::Resolution(err)),
                ),
            },
        },
{
    match entry {
        None => Ok(EntryMode::Bootstrap),
        Some(e) => match resolve(e, referrer) {
            Ok(m) => Ok(EntryMode::ModuleGraph(m)),
            Err(err) => Err(RunError::ModuleGraphFailure(GraphFailure::Resolution(err))),
        },
    }
}

/// The request value of the original embedding: `{"to": "Alice"}`.
pub fn default_request() -> (r: HostValue)
    ensures
        (r matches HostValue::Mapping(fields) && fields@.len() == 1 && fields@[0].0@ == "to"@ && (
        fields@[0].1 matches HostValue::Text(t) && t@ == "Alice"@)),
        wf_value(r),
{
    let name = HostValue::Text(String::from_str("Alice"));
    proof {
        assert(wf_value(name));
    }
    let mut fields: Vec<(String, HostValue)> = Vec::new();
    fields.push((String::from_str("to"), name));
    let r = HostValue::Mapping(fields);
    proof {
        assert(fields@[0].1 == name);
        assert(wf_value(r));
    }
    r
}

/// The context value of the original embedding:
/// `{"current_user": {"name": "Alice"}}`.
pub fn default_context() -> (r: HostValue)
    ensures
        (r matches HostValue::Mapping(fields) && fields@.len() == 1 && fields@[0].0@
            == "current_user"@ && (fields@[0].1 matches HostValue::Mapping(inner) && inner@.len()
            == 1 && inner@[0].0@ == "name"@ && (inner@[0].1 matches HostValue::Text(t) && t@
            == "Alice"@))),
        wf_value(r),
{
    let name = HostValue::Text(String::from_str("Alice"));
    proof {
        assert(wf_value(name));
    }
    let mut inner: Vec<(String, HostValue)> = Vec::new();
    inner.push((String::from_str("name"), name));
    let user = HostValue::Mapping(inner);
    proof {
        assert(inner@[0].1 == name);
        assert(wf_value(user));
    }
    let mut fields: Vec<(String, HostValue)> = Vec::new();
    fields.push((String::from_str("current_user"), user));
    let r = HostValue::Mapping(fields);
    proof {
        assert(fields@[0].1 == user);
        assert(wf_value(r));
    }
    r
}

} // verus!
