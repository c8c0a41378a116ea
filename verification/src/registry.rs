//! The virtual module registry: a fixed, process-lifetime mapping from the
//! reserved virtual names to synthesized source text.
//!
//! The set is closed: a runtime-helper namespace module and a query-handler
//! template module, both written in the typed surface dialect.
use vstd::prelude::*;
use crate::media::MediaKind;
use crate::text::str_eq;

verus! {

/// One entry of the registry.
#[derive(Clone, PartialEq, Eq, Debug)]
pub struct VirtualModuleEntry {
    /// The reserved name, without the scheme prefix.
    pub name: String,
    /// The declared kind of the synthesized source.
    pub media_kind: MediaKind,
    /// The synthesized source text.
    pub source_text: String,
}

/// The synthesized text of the runtime-helper namespace module.
pub open spec fn runtime_source_text() -> Seq<char> {
    "const ops = (globalThis as any).Deno.core.ops;\nexport function readFile(path: string): Promise<string> { return ops.op_read_file(path); }\nexport function writeFile(path: string, contents: string): Promise<void> { return ops.op_write_file(path, contents); }\nexport function removeFile(path: string): void { ops.op_remove_file(path); }\nexport function fetch(url: string): Promise<string> { return ops.op_fetch(url); }\n"@
}

/// The synthesized text of the query-handler template module: a minimal
/// typed-surface module exporting `handle`, which returns its first
/// argument unchanged.
pub open spec fn query_source_text() -> Seq<char> {
    "export async function handle(request: unknown, context: unknown): Promise<unknown> { return request; }\n"@
}

/// Is `name` one of the reserved virtual names?
pub open spec fn is_reserved(name: Seq<char>) -> bool {
    name == "runtime"@ || name == "query"@
}

/// The declared media kind of a reserved name.
pub open spec fn registry_kind(name: Seq<char>) -> MediaKind {
    MediaKind::TypedScript
}

/// The synthesized source of a reserved name.
pub open spec fn registry_text(name: Seq<char>) -> Seq<char> {
    if name == "runtime"@ {
        runtime_source_text()
    } else {
        query_source_text()
    }
}

/// Every reserved virtual name declares the typed surface kind, and that
/// kind requires the transpile step — the `mediaKind`/`requiresTranspile`
/// pairing of every registry entry is consistent with its declared kind.
pub proof fn lemma_registry_pairing(name: Seq<char>)
    requires
        is_reserved(name),
    ensures
        registry_kind(name) == MediaKind::TypedScript,
        crate::media::spec_requires_transpile(registry_kind(name)),
{
}

/// Look a virtual name up in the registry.
pub fn lookup_virtual(name: &str) -> (r: Option<VirtualModuleEntry>)
    ensures
        match r {
            Some(e) => is_reserved(name@) && e.name@ == name@ && e.media_kind == registry_kind(
                name@,
            ) && e.source_text@ == registry_text(name@),
            None => !is_reserved(name@),
        },
{
    if str_eq(name, "runtime") {
        Some(
            VirtualModuleEntry {
                name: name.to_owned(),
                media_kind: MediaKind::TypedScript,
                source_text: String::from_str(
                    "const ops = (globalThis as any).Deno.core.ops;\nexport function readFile(path: string): Promise<string> { return ops.op_read_file(path); }\nexport function writeFile(path: string, contents: string): Promise<void> { return ops.op_write_file(path, contents); }\nexport function removeFile(path: string): void { ops.op_remove_file(path); }\nexport function fetch(url: string): Promise<string> { return ops.op_fetch(url); }\n",
                ),
            },
        )
    } else if str_eq(name, "query") {
        proof {
            reveal_strlit("query");
            reveal_strlit("runtime");
        }
        Some(
            VirtualModuleEntry {
                name: name.to_owned(),
                media_kind: MediaKind::TypedScript,
                source_text: String::from_str(
                    "export async function handle(request: unknown, context: unknown): Promise<unknown> { return request; }\n",
                ),
            },
        )
    } else {
        None
    }
}

/// The whole registry, in its fixed order.
pub fn virtual_modules() -> (r: Vec<VirtualModuleEntry>)
    ensures
        r@.len() == 2,
        r@[0].name@ == "runtime"@,
        r@[0].media_kind == registry_kind("runtime"@),
        r@[0].source_text@ == registry_text("runtime"@),
        r@[1].name@ == "query"@,
        r@[1].media_kind == registry_kind("query"@),
        r@[1].source_text@ == registry_text("query"@),
{
    let mut out: Vec<VirtualModuleEntry> = Vec::new();
    let runtime = lookup_virtual("runtime");
    let query = lookup_virtual("query");
    match (runtime, query) {
        (Some(a), Some(b)) => {
            out.push(a);
            out.push(b);
        },
        _ => {
            proof {
                assert(is_reserved("runtime"@));
                assert(is_reserved("query"@));
            }
        },
    }
    out
}

} // verus!
