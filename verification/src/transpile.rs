//! The transpile adapter: surface-syntax sources are lowered by the
//! external compiler oracle, native-syntax and data-document sources pass
//! through byte-identical.
//!
//! The compiler is `deno_ast`: its output is a pure function of the
//! specifier text, the source text and the surface kind, so the outcome is
//! named by an uninterpreted function and every caller's contract speaks
//! of that name. The parser refuses a source that still carries a leading
//! byte-order mark, so the adapter strips them before the call.
use vstd::prelude::*;
use crate::errors::CompileError;
use crate::loader::SourceRecord;
use crate::media::MediaKind;

verus! {

/// What the external compiler returns for one source: either the lowered,
/// engine-executable text or its syntax diagnostics. The outcome depends
/// only on the specifier text, the source text, and whether the JSX/TSX
/// grammar is selected.
pub uninterp spec fn compile_outcome(specifier: Seq<char>, text: Seq<char>, jsx: bool) -> Result<
    Seq<char>,
    Seq<char>,
>;

/// `s` with every leading byte-order mark removed.
pub open spec fn without_leading_bom(s: Seq<char>) -> Seq<char>
    decreases s.len(),
{
    if s.len() > 0 && s[0] == '\u{feff}' {
        without_leading_bom(s.skip(1))
    } else {
        s
    }
}

proof fn lemma_without_leading_bom_skip(s: Seq<char>, i: int)
    requires
        0 <= i <= s.len(),
        forall|j: int| 0 <= j < i ==> #[trigger] s[j] == '\u{feff}',
    ensures
        without_leading_bom(s) == without_leading_bom(s.skip(i)),
    decreases i,
{
    if i > 0 {
        assert(s[0] == '\u{feff}');
        assert forall|j: int| 0 <= j < i - 1 implies #[trigger] s.skip(1)[j] == '\u{feff}' by {
            assert(s.skip(1)[j] == s[j + 1]);
        }
        assert(s.skip(1).skip(i - 1) =~= s.skip(i));
        lemma_without_leading_bom_skip(s.skip(1), i - 1);
    } else {
        assert(s.skip(0) =~= s);
    }
}

/// The number of leading byte-order marks of `s`.
fn leading_bom_len(s: &str) -> (i: usize)
    ensures
        i <= s@.len(),
        forall|j: int| 0 <= j < i ==> #[trigger] s@[j] == '\u{feff}',
        i < s@.len() ==> s@[i as int] != '\u{feff}',
{
    let n = s.unicode_len();
    let mut i: usize = 0;
    while i < n
        invariant
            i <= n,
            n == s@.len(),
            forall|j: int| 0 <= j < i ==> #[trigger] s@[j] == '\u{feff}',
        decreases n - i,
    {
        if s.get_char(i) != '\u{feff}' {
            return i;
        }
        i += 1;
    }
    i
}

/// Relies on `deno_ast::parse_module` and `deno_ast::ParsedSource::transpile`:
/// with every option at its default, parsing and emitting are deterministic
/// in the parameters given here, and a source that fails to parse yields its
/// diagnostics instead of output. The parser aborts on a text that begins
/// with a byte-order mark, so such a text is excluded here and stripped by
/// the caller.
#[verifier::external_body]
fn compile_surface(specifier: &str, text: &str, jsx: bool) -> (r: Result<String, String>)
    requires
        text@.len() == 0 || text@[0] != '\u{feff}',
    ensures
        match (r, compile_outcome(specifier@, text@, jsx)) {
            (Ok(out), Ok(named)) => out@ == named,
            (Err(diag), Err(named)) => diag@ == named,
            _ => false,
        },
{
    let url = deno_ast::ModuleSpecifier::parse(specifier)
        .or_else(|_| deno_ast::ModuleSpecifier::parse("file:///module.ts"))
        .map_err(|e| e.to_string())?;
    let parsed = deno_ast::parse_module(deno_ast::ParseParams {
        specifier: url,
        text: text.into(),
        media_type: if jsx { deno_ast::MediaType::Tsx } else { deno_ast::MediaType::TypeScript },
        capture_tokens: false,
        scope_analysis: false,
        maybe_syntax: None,
    }).map_err(|e| e.to_string())?;
    parsed.transpile(&Default::default(), &Default::default(), &Default::default())
        .map(|t| t.into_source().text)
        .map_err(|e| e.to_string())
}

/// Is the JSX/TSX grammar selected for this kind?
pub open spec fn spec_uses_jsx_grammar(kind: MediaKind) -> bool {
    kind == MediaKind::JsxTsx
}

/// Lower one source record to engine-executable text.
///
/// A record that does not require transpilation passes through with its
/// text byte-identical. A surface-syntax record is handed to the compiler
/// oracle — under its scheme-qualified specifier text, for diagnostics,
/// and with leading byte-order marks removed — and the oracle's syntax
/// diagnostics become `CompileError::Syntax` for this one module.
pub fn maybe_transpile(record: &SourceRecord) -> (r: Result<String, CompileError>)
    ensures
        !record.requires_transpile ==> (r matches Ok(out) && out@ == record.text@),
        record.requires_transpile ==> match (
            r,
            compile_outcome(
                record.specifier.url_text(),
                without_leading_bom(record.text@),
                spec_uses_jsx_grammar(record.media_kind),
            ),
        ) {
            (Ok(out), Ok(named)) => out@ == named,
            (Err(CompileError::Syntax(diag)), Err(named)) => diag@ == named,
            _ => false,
        },
{
    if !record.requires_transpile {
        return Ok(record.text.clone());
    }
    let jsx = match record.media_kind {
        MediaKind::JsxTsx => true,
        _ => false,
    };
    let n = record.text.as_str().unicode_len();
    let skip = leading_bom_len(record.text.as_str());
    let source: &str = record.text.as_str().substring_char(skip, n);
    proof {
        lemma_without_leading_bom_skip(record.text@, skip as int);
        assert(source@ =~= record.text@.skip(skip as int));
        assert(source@ == without_leading_bom(record.text@));
    }
    let url = record.specifier.to_url_text();
    match compile_surface(url.as_str(), source, jsx) {
        Ok(out) => Ok(out),
        Err(diag) => Err(CompileError::Syntax(diag)),
    }
}

} // verus!
