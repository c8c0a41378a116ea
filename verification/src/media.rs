//! Media-kind classification of module sources.
//!
//! The kind of a file-backed source is decided by a fixed table over the
//! file extension; the kind decides whether the transpile step runs.
use vstd::prelude::*;
use crate::text::str_eq;

verus! {

/// The media kind of one module source.
#[derive(Clone, Copy, PartialEq, Eq, Structural, Debug)]
pub enum MediaKind {
    /// The engine's native script dialect; runs as-is.
    NativeScript,
    /// The typed surface dialect; must be compiled before evaluation.
    TypedScript,
    /// The JSX/TSX surface variants; must be compiled before evaluation.
    JsxTsx,
    /// A structured-data document, decoded by the engine itself.
    StructuredData,
    /// Anything else; loading such a source is refused.
    Unknown,
}

/// The extension of a path: the characters after the last `.` of its final
/// segment, or `None` when the final segment has no `.` at all.
pub open spec fn ext_of(s: Seq<char>) -> Option<Seq<char>>
    decreases s.len(),
{
    if s.len() == 0 {
        None
    } else if s.last() == '.' {
        Some(Seq::empty())
    } else if s.last() == '/' {
        None
    } else {
        match ext_of(s.drop_last()) {
            None => None,
            Some(e) => Some(e.push(s.last())),
        }
    }
}

/// The fixed extension table.
pub open spec fn media_of_ext(e: Option<Seq<char>>) -> MediaKind {
    match e {
        None => MediaKind::Unknown,
        Some(x) => if x == "js"@ || x == "mjs"@ || x == "cjs"@ {
            MediaKind::NativeScript
        } else if x == "ts"@ || x == "mts"@ || x == "cts"@ {
            MediaKind::TypedScript
        } else if x == "jsx"@ || x == "tsx"@ {
            MediaKind::JsxTsx
        } else if x == "json"@ {
            MediaKind::StructuredData
        } else {
            MediaKind::Unknown
        },
    }
}

/// The media kind of a file path, by its extension.
pub open spec fn media_of_path(p: Seq<char>) -> MediaKind {
    media_of_ext(ext_of(p))
}

/// Only the two surface dialects need the compile step; native scripts and
/// data documents pass through.
pub open spec fn spec_requires_transpile(k: MediaKind) -> bool {
    k == MediaKind::TypedScript || k == MediaKind::JsxTsx
}

/// Whether a source of kind `k` must be compiled before the engine sees it.
pub fn requires_transpile(k: MediaKind) -> (r: bool)
    ensures
        r == spec_requires_transpile(k),
{
    match k {
        MediaKind::TypedScript => true,
        MediaKind::JsxTsx => true,
        _ => false,
    }
}

proof fn lemma_ext_after_dot(s: Seq<char>, k: int)
    requires
        0 <= k < s.len(),
        s[k] == '.',
        forall|j: int| k < j < s.len() ==> s[j] != '.' && s[j] != '/',
    ensures
        ext_of(s) == Some(s.subrange(k + 1, s.len() as int)),
    decreases s.len(),
{
    if k == s.len() - 1 {
        assert(s.subrange(k + 1, s.len() as int) =~= Seq::<char>::empty());
    } else {
        lemma_ext_after_dot(s.drop_last(), k);
        assert(s.subrange(k + 1, s.len() as int) =~= s.drop_last().subrange(
            k + 1,
            s.len() - 1,
        ).push(s.last()));
    }
}

proof fn lemma_ext_none(s: Seq<char>, k: int)
    requires
        -1 <= k < s.len(),
        k >= 0 ==> s[k] == '/',
        forall|j: int| k < j < s.len() ==> s[j] != '.' && s[j] != '/',
    ensures
        ext_of(s) == None::<Seq<char>>,
    decreases s.len(),
{
    if s.len() == 0 {
    } else if k == s.len() - 1 {
    } else {
        lemma_ext_none(s.drop_last(), k);
    }
}

/// The extension of `path`, or `None` when its final segment has none.
pub fn extension_of(path: &str) -> (r: Option<&str>)
    ensures
        match r {
            Some(e) => ext_of(path@) == Some(e@),
            None => ext_of(path@) == None::<Seq<char>>,
        },
{
    let n = path.unicode_len();
    let mut i: usize = n;
    while i > 0
        invariant
            i <= n,
            n == path@.len(),
            forall|j: int| i <= j < n ==> path@[j] != '.' && path@[j] != '/',
        decreases i,
    {
        let c = path.get_char(i - 1);
        if c == '.' {
            let e = path.substring_char(i, n);
            proof {
                lemma_ext_after_dot(path@, i - 1);
            }
            return Some(e);
        }
        if c == '/' {
            proof {
                lemma_ext_none(path@, i - 1);
            }
            return None;
        }
        i -= 1;
    }
    proof {
        lemma_ext_none(path@, -1);
    }
    None
}

/// Classify an already-scanned extension by the fixed table.
pub fn classify_extension(e: Option<&str>) -> (r: MediaKind)
    ensures
        r == media_of_ext(
            match e {
                Some(x) => Some(x@),
                None => None,
            },
        ),
{
    match e {
        None => MediaKind::Unknown,
        Some(x) => {
            if str_eq(x, "js") || str_eq(x, "mjs") || str_eq(x, "cjs") {
                MediaKind::NativeScript
            } else if str_eq(x, "ts") || str_eq(x, "mts") || str_eq(x, "cts") {
                MediaKind::TypedScript
            } else if str_eq(x, "jsx") || str_eq(x, "tsx") {
                MediaKind::JsxTsx
            } else if str_eq(x, "json") {
                MediaKind::StructuredData
            } else {
                MediaKind::Unknown
            }
        },
    }
}

/// The media kind of a file path.
pub fn classify_path(path: &str) -> (r: MediaKind)
    ensures
        r == media_of_path(path@),
{
    let e = extension_of(path);
    classify_extension(e)
}

} // verus!
