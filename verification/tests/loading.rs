use jet_host::errors::{CompileError, LoadError};
use jet_host::loader::{finish_file_load, load_virtual, plan_load, LoadPlan, SourceRecord};
use jet_host::media::{classify_path, extension_of, MediaKind};
use jet_host::registry::virtual_modules;
use jet_host::specifier::{ModuleSpecifier, Scheme};
use jet_host::transpile::maybe_transpile;

fn virtual_specifier(name: &str) -> ModuleSpecifier {
    ModuleSpecifier { scheme: Scheme::Virtual, path: name.to_string() }
}

fn file_specifier(path: &str) -> ModuleSpecifier {
    ModuleSpecifier { scheme: Scheme::File, path: path.to_string() }
}

#[test]
fn every_reserved_virtual_name_loads_consistently() {
    for entry in virtual_modules() {
        let spec = virtual_specifier(&entry.name);
        let record = load_virtual(&spec).unwrap();
        assert_eq!(record.media_kind, MediaKind::TypedScript);
        assert!(record.requires_transpile);
        assert_eq!(record.text, entry.source_text);
    }
}

#[test]
fn unreserved_virtual_names_fail_without_aborting() {
    let spec = virtual_specifier("missing");
    assert_eq!(load_virtual(&spec), Err(LoadError::VirtualModuleNotFound));
    let plan = plan_load(&spec);
    assert!(matches!(plan, LoadPlan::Refused(LoadError::VirtualModuleNotFound)));
}

#[test]
fn extensions_classify_by_the_fixed_table() {
    assert_eq!(classify_path("/m/a.js"), MediaKind::NativeScript);
    assert_eq!(classify_path("/m/a.mjs"), MediaKind::NativeScript);
    assert_eq!(classify_path("/m/a.cjs"), MediaKind::NativeScript);
    assert_eq!(classify_path("/m/a.ts"), MediaKind::TypedScript);
    assert_eq!(classify_path("/m/a.mts"), MediaKind::TypedScript);
    assert_eq!(classify_path("/m/a.cts"), MediaKind::TypedScript);
    assert_eq!(classify_path("/m/a.d.ts"), MediaKind::TypedScript);
    assert_eq!(classify_path("/m/a.jsx"), MediaKind::JsxTsx);
    assert_eq!(classify_path("/m/a.tsx"), MediaKind::JsxTsx);
    assert_eq!(classify_path("/m/a.json"), MediaKind::StructuredData);
    assert_eq!(classify_path("/m/a.wasm"), MediaKind::Unknown);
    assert_eq!(classify_path("/m/noext"), MediaKind::Unknown);
    // A dot in an earlier segment is not an extension.
    assert_eq!(classify_path("/m.d/noext"), MediaKind::Unknown);
}

#[test]
fn extension_scanning_stops_at_the_segment() {
    assert_eq!(extension_of("/a/b.ts"), Some("ts"));
    assert_eq!(extension_of("/a.b/c"), None);
    assert_eq!(extension_of("trailing."), Some(""));
    assert_eq!(extension_of(""), None);
}

#[test]
fn unsupported_extension_is_refused_not_aborted() {
    let plan = plan_load(&file_specifier("/m/image.png"));
    assert!(matches!(plan, LoadPlan::Refused(LoadError::UnsupportedMediaKind)));
    let plan = plan_load(&file_specifier("/m/module.ts"));
    assert!(matches!(plan, LoadPlan::ReadFile { media_kind: MediaKind::TypedScript }));
}

#[test]
fn read_failures_surface_as_io_errors() {
    let spec = file_specifier("/m/gone.ts");
    let r = finish_file_load(spec, MediaKind::TypedScript, Err("no such file".to_string()));
    assert_eq!(r, Err(LoadError::Io("no such file".to_string())));
}

#[test]
fn successful_reads_become_records() {
    let spec = file_specifier("/m/mod.js");
    let r = finish_file_load(spec.clone(), MediaKind::NativeScript, Ok("let x = 1;".to_string()))
        .unwrap();
    assert_eq!(r.specifier, spec);
    assert_eq!(r.media_kind, MediaKind::NativeScript);
    assert!(!r.requires_transpile);
    assert_eq!(r.text, "let x = 1;");
}

#[test]
fn passthrough_sources_keep_their_text_byte_identical() {
    let record = SourceRecord {
        specifier: file_specifier("/m/mod.js"),
        media_kind: MediaKind::NativeScript,
        requires_transpile: false,
        text: "console.log(1);\n".to_string(),
    };
    assert_eq!(maybe_transpile(&record).unwrap(), "console.log(1);\n");

    let record = SourceRecord {
        specifier: file_specifier("/m/data.json"),
        media_kind: MediaKind::StructuredData,
        requires_transpile: false,
        text: "{\"k\": [1, 2]}".to_string(),
    };
    assert_eq!(maybe_transpile(&record).unwrap(), "{\"k\": [1, 2]}");
}

#[test]
fn typed_sources_are_lowered_by_the_compiler() {
    let source = "export function handle(a: number): number { return a; }\n";
    let record = SourceRecord {
        specifier: file_specifier("/m/mod.ts"),
        media_kind: MediaKind::TypedScript,
        requires_transpile: true,
        text: source.to_string(),
    };
    let out = maybe_transpile(&record).unwrap();
    assert_ne!(out, source);
    assert!(!out.contains(": number"));
    assert!(out.contains("handle"));
}

#[test]
fn the_query_template_compiles_and_keeps_its_export() {
    // The whole virtual-module path: load the synthesized query template
    // and lower it with the real compiler; the export binding survives.
    let spec = virtual_specifier("query");
    let record = load_virtual(&spec).unwrap();
    let lowered = maybe_transpile(&record).unwrap();
    assert_ne!(lowered, record.text);
    assert!(lowered.contains("handle"));
    assert!(lowered.contains("export"));
    assert!(!lowered.contains("unknown"));

    let spec = virtual_specifier("runtime");
    let record = load_virtual(&spec).unwrap();
    let lowered = maybe_transpile(&record).unwrap();
    assert!(lowered.contains("readFile"));
    assert!(!lowered.contains(": string"));
}

#[test]
fn a_leading_byte_order_mark_is_stripped_before_compiling() {
    let source = "\u{feff}export function handle(a: number): number { return a; }\n";
    let record = SourceRecord {
        specifier: file_specifier("/m/bom.ts"),
        media_kind: MediaKind::TypedScript,
        requires_transpile: true,
        text: source.to_string(),
    };
    let out = maybe_transpile(&record).unwrap();
    assert!(!out.contains('\u{feff}'));
    assert!(out.contains("handle"));
}

#[test]
fn syntax_errors_fail_only_that_module() {
    let record = SourceRecord {
        specifier: file_specifier("/m/broken.ts"),
        media_kind: MediaKind::TypedScript,
        requires_transpile: true,
        text: "export function (".to_string(),
    };
    match maybe_transpile(&record) {
        Err(CompileError::Syntax(diag)) => assert!(!diag.is_empty()),
        other => panic!("expected syntax diagnostics, got {:?}", other),
    }
}
