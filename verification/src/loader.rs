//! The source loader: from a canonical module identifier to a source
//! record.
//!
//! Virtual identifiers are served from the registry without any I/O; file
//! identifiers are classified by extension here, while the read of the
//! file's bytes is performed by the embedding caller and handed back to
//! [`finish_file_load`]. An unknown virtual name or an unrecognized
//! extension is a reported error, never an abort.
use vstd::prelude::*;
use crate::errors::LoadError;
use crate::media::{classify_path, media_of_path, requires_transpile, spec_requires_transpile, MediaKind};
use crate::registry::{is_reserved, lookup_virtual, registry_kind, registry_text};
use crate::specifier::{ModuleSpecifier, Scheme};

verus! {

/// One loaded module source, produced fresh per load and never mutated.
#[derive(Clone, PartialEq, Eq, Debug)]
pub struct SourceRecord {
    /// The canonical identifier the source was loaded for.
    pub specifier: ModuleSpecifier,
    /// The classified kind of the source.
    pub media_kind: MediaKind,
    /// Whether the transpile step must run before the engine sees it.
    pub requires_transpile: bool,
    /// The raw source text.
    pub text: String,
}

impl SourceRecord {
    /// The transpile flag is decided by the media kind alone.
    pub open spec fn wf(self) -> bool {
        self.requires_transpile == spec_requires_transpile(self.media_kind)
    }
}

/// What loading one canonical identifier takes.
pub enum LoadPlan {
    /// A reserved virtual module: the record is synthesized in-process.
    Synthesized(SourceRecord),
    /// A file-backed module: the caller must read the file's bytes and
    /// hand them to [`finish_file_load`] together with this kind.
    ReadFile { media_kind: MediaKind },
    /// Loading is refused before any I/O happens.
    Refused(LoadError),
}

/// Decide how a canonical identifier is loaded.
///
/// `virtual` identifiers are answered from the registry: a reserved name
/// synthesizes its record, any other name is `VirtualModuleNotFound`.
/// `file` identifiers are classified by extension: an unrecognized
/// extension is `UnsupportedMediaKind`. Identifiers of any other scheme
/// are not loadable by this host and are refused the same way.
pub fn plan_load(specifier: &ModuleSpecifier) -> (r: LoadPlan)
    ensures
        match r {
            LoadPlan::Synthesized(rec) => specifier.scheme == Scheme::Virtual && is_reserved(
                specifier.path@,
            ) && rec.specifier == *specifier && rec.media_kind == registry_kind(specifier.path@)
                && rec.text@ == registry_text(specifier.path@) && rec.wf(),
            LoadPlan::ReadFile { media_kind } => specifier.scheme == Scheme::File && media_kind
                == media_of_path(specifier.path@) && media_kind != MediaKind::Unknown,
            LoadPlan::Refused(e) => match e {
                LoadError::VirtualModuleNotFound => specifier.scheme == Scheme::Virtual
                    && !is_reserved(specifier.path@),
                LoadError::UnsupportedMediaKind => (specifier.scheme == Scheme::File
                    && media_of_path(specifier.path@) == MediaKind::Unknown)
                    || specifier.scheme == Scheme::OtherNetwork,
                LoadError::Io(_) => false,
            },
        },
{
    match specifier.scheme {
        Scheme::Virtual => {
            match lookup_virtual(specifier.path.as_str()) {
                Some(entry) => {
                    let transpile = requires_transpile(entry.media_kind);
                    LoadPlan::Synthesized(
                        SourceRecord {
                            specifier: specifier.duplicate(),
                            media_kind: entry.media_kind,
                            requires_transpile: transpile,
                            text: entry.source_text,
                        },
                    )
                },
                None => LoadPlan::Refused(LoadError::VirtualModuleNotFound),
            }
        },
        Scheme::File => {
            let kind = classify_path(specifier.path.as_str());
            match kind {
                MediaKind::Unknown => LoadPlan::Refused(LoadError::UnsupportedMediaKind),
                _ => LoadPlan::ReadFile { media_kind: kind },
            }
        },
        Scheme::OtherNetwork => LoadPlan::Refused(LoadError::UnsupportedMediaKind),
    }
}

/// Finish a file-backed load once the caller has read the file.
///
/// A successful read becomes the source record; a failed read surfaces as
/// `LoadError::Io` with the cause preserved.
pub fn finish_file_load(
    specifier: ModuleSpecifier,
    media_kind: MediaKind,
    read: Result<String, String>,
) -> (r: Result<SourceRecord, LoadError>)
    ensures
        match read {
            Ok(text) => r matches Ok(rec) && rec.specifier == specifier && rec.media_kind
                == media_kind && rec.text == text && rec.wf(),
            Err(cause) => r == Err::<SourceRecord, LoadError>(LoadError::Io(cause)),
        },
{
    match read {
        Ok(text) => {
            let transpile = requires_transpile(media_kind);
            Ok(
                SourceRecord {
                    specifier,
                    media_kind,
                    requires_transpile: transpile,
                    text,
                },
            )
        },
        Err(cause) => Err(LoadError::Io(cause)),
    }
}

/// Load a reserved virtual module, entirely in-process.
pub fn load_virtual(specifier: &ModuleSpecifier) -> (r: Result<SourceRecord, LoadError>)
    requires
        specifier.scheme == Scheme::Virtual,
    ensures
        match r {
            Ok(rec) => is_reserved(specifier.path@) && rec.specifier == *specifier
                && rec.media_kind == registry_kind(specifier.path@) && rec.text@ == registry_text(
                specifier.path@,
            ) && rec.wf(),
            Err(e) => !is_reserved(specifier.path@) && e == LoadError::VirtualModuleNotFound,
        },
{
    match plan_load(specifier) {
        LoadPlan::Synthesized(rec) => Ok(rec),
        LoadPlan::Refused(e) => Err(e),
        LoadPlan::ReadFile { media_kind: _ } => Err(LoadError::VirtualModuleNotFound),
    }
}

} // verus!
