//! Canonical module specifiers and specifier resolution.
//!
//! A requested specifier string is resolved against the specifier of the
//! referring module into a canonical identifier: `jet:` names map to the
//! `virtual` scheme directly, absolute URLs pass through, and
//! relative or absolute file paths are joined against the referrer's
//! directory and normalized (`.` and `..` segments removed). Resolution is a
//! pure function of its two inputs, so the same pair always yields the same
//! canonical identifier.
use vstd::prelude::*;
use crate::errors::ResolutionError;
use crate::text::{str_eq, str_starts_with};

verus! {

/// The scheme of a canonical module identifier.
#[derive(Clone, Copy, PartialEq, Eq, Structural, Debug)]
pub enum Scheme {
    /// A reserved, in-process-synthesized module.
    Virtual,
    /// An ordinary file on disk.
    File,
    /// Any other absolute URL (network or otherwise).
    OtherNetwork,
}

/// A canonical module identifier: a scheme and a scheme-specific path.
///
/// For the `virtual` scheme the path is the reserved name; for the `file`
/// scheme it is a normalized absolute path; for any other scheme it is the
/// full URL text, kept as given.
#[derive(Clone, PartialEq, Eq, Debug)]
pub struct ModuleSpecifier {
    pub scheme: Scheme,
    pub path: String,
}

impl ModuleSpecifier {
    /// The mathematical identity of this specifier.
    pub open spec fn id(self) -> (Scheme, Seq<char>) {
        (self.scheme, self.path@)
    }

    /// An equal copy of this specifier.
    pub fn duplicate(&self) -> (r: Self)
        ensures
            r == *self,
    {
        ModuleSpecifier { scheme: self.scheme, path: self.path.clone() }
    }

    /// The scheme-qualified text of this identifier, the form the engine
    /// and the compiler's diagnostics see.
    pub open spec fn url_text(self) -> Seq<char> {
        match self.scheme {
            Scheme::Virtual => "jet:"@ + self.path@,
            Scheme::File => "file://"@ + self.path@,
            Scheme::OtherNetwork => self.path@,
        }
    }

    /// The scheme-qualified text of this identifier.
    pub fn to_url_text(&self) -> (r: String)
        ensures
            r@ == self.url_text(),
    {
        match self.scheme {
            Scheme::Virtual => {
                let mut out = String::from_str("jet:");
                out.append(self.path.as_str());
                out
            },
            Scheme::File => {
                let mut out = String::from_str("file://");
                out.append(self.path.as_str());
                out
            },
            Scheme::OtherNetwork => self.path.clone(),
        }
    }
}

/// The views of a sequence of strings.
pub open spec fn seq_views(v: Seq<String>) -> Seq<Seq<char>> {
    v.map_values(|x: String| x@)
}

/// Does `s` start with `p`?
pub open spec fn starts_with_seq(s: Seq<char>, p: Seq<char>) -> bool {
    p.len() <= s.len() && s.subrange(0, p.len() as int) == p
}

/// An ASCII letter, the only characters a URL scheme is made of here.
pub open spec fn is_ascii_letter(c: char) -> bool {
    (c as u32 >= 97 && c as u32 <= 122) || (c as u32 >= 65 && c as u32 <= 90)
}

/// The first `k` characters of `s` are all ASCII letters.
pub open spec fn all_letters(s: Seq<char>, k: int) -> bool {
    forall|j: int| 0 <= j < k ==> is_ascii_letter(#[trigger] s[j])
}

/// Does `s` begin with a URL scheme: one or more ASCII letters followed by
/// `:`? A specifier of that shape is an absolute URL.
pub open spec fn has_leading_scheme(s: Seq<char>) -> bool {
    exists|k: int| 1 <= k < s.len() && #[trigger] s[k] == ':' && all_letters(s, k)
}

/// Split on `/`: one segment per stretch between separators, with empty
/// segments for leading, trailing and doubled separators.
pub open spec fn split_slash(s: Seq<char>) -> Seq<Seq<char>>
    decreases s.len(),
{
    if s.len() == 0 {
        seq![Seq::<char>::empty()]
    } else {
        let init = split_slash(s.drop_last());
        if s.last() == '/' {
            init.push(Seq::empty())
        } else {
            init.update(init.len() - 1, init.last().push(s.last()))
        }
    }
}

/// One step of path normalization: empty and `.` segments vanish, `..` pops
/// the previous segment (or nothing at the root), anything else is kept.
pub open spec fn norm_push(acc: Seq<Seq<char>>, seg: Seq<char>) -> Seq<Seq<char>> {
    if seg == Seq::<char>::empty() || seg == seq!['.'] {
        acc
    } else if seg == seq!['.', '.'] {
        if acc.len() == 0 {
            acc
        } else {
            acc.drop_last()
        }
    } else {
        acc.push(seg)
    }
}

/// Normalize a segment list, left to right.
pub open spec fn normalize(segs: Seq<Seq<char>>) -> Seq<Seq<char>>
    decreases segs.len(),
{
    if segs.len() == 0 {
        Seq::empty()
    } else {
        norm_push(normalize(segs.drop_last()), segs.last())
    }
}

/// Join normalized segments into an absolute path, one `/` before each.
pub open spec fn join_abs(segs: Seq<Seq<char>>) -> Seq<char>
    decreases segs.len(),
{
    if segs.len() == 0 {
        Seq::empty()
    } else {
        join_abs(segs.drop_last()) + seq!['/'] + segs.last()
    }
}

/// The canonical form of an absolute file path.
pub open spec fn canonical_file_path(s: Seq<char>) -> Seq<char> {
    let segs = normalize(split_slash(s));
    if segs.len() == 0 {
        seq!['/']
    } else {
        join_abs(segs)
    }
}

/// The canonical path of a relative specifier joined against the directory
/// of the referrer's path.
pub open spec fn canonical_join(ref_path: Seq<char>, rel: Seq<char>) -> Seq<char> {
    let segs = normalize(split_slash(ref_path).drop_last() + split_slash(rel));
    if segs.len() == 0 {
        seq!['/']
    } else {
        join_abs(segs)
    }
}

/// The resolution rules, as a pure function of the requested specifier and
/// the referrer's identity.
pub open spec fn spec_resolve(req: Seq<char>, ref_scheme: Scheme, ref_path: Seq<char>) -> Result<
    (Scheme, Seq<char>),
    ResolutionError,
> {
    if starts_with_seq(req, "jet:"@) {
        Ok((Scheme::Virtual, req.skip("jet:"@.len() as int)))
    } else if starts_with_seq(req, "file:///"@) {
        Ok((Scheme::File, canonical_file_path(req.skip("file://"@.len() as int))))
    } else if has_leading_scheme(req) {
        Ok((Scheme::OtherNetwork, req))
    } else if req.len() > 0 && req[0] == '/' {
        if ref_scheme == Scheme::File {
            Ok((Scheme::File, canonical_file_path(req)))
        } else {
            Err(ResolutionError::InvalidSpecifier)
        }
    } else if req.len() > 0 {
        if ref_scheme == Scheme::File {
            Ok((Scheme::File, canonical_join(ref_path, req)))
        } else {
            Err(ResolutionError::InvalidSpecifier)
        }
    } else {
        Err(ResolutionError::InvalidSpecifier)
    }
}

/// The identity of a resolution result.
pub open spec fn resolved_id(r: Result<ModuleSpecifier, ResolutionError>) -> Result<
    (Scheme, Seq<char>),
    ResolutionError,
> {
    match r {
        Ok(m) => Ok(m.id()),
        Err(e) => Err(e),
    }
}

/// Resolution is deterministic: resolving the same (requested specifier,
/// referrer) pair twice yields identical canonical identifiers, which is
/// what makes a canonical identifier usable as a cache and graph key.
pub proof fn lemma_resolution_deterministic(
    req: Seq<char>,
    ref_scheme: Scheme,
    ref_path: Seq<char>,
    first: Result<(Scheme, Seq<char>), ResolutionError>,
    second: Result<(Scheme, Seq<char>), ResolutionError>,
)
    requires
        first == spec_resolve(req, ref_scheme, ref_path),
        second == spec_resolve(req, ref_scheme, ref_path),
    ensures
        first == second,
{
}

/// A split is never empty: there is always at least one segment.
pub proof fn lemma_split_nonempty(s: Seq<char>)
    ensures
        split_slash(s).len() >= 1,
    decreases s.len(),
{
    if s.len() > 0 {
        lemma_split_nonempty(s.drop_last());
    }
}

/// Split a path on `/` separators.
fn split_path(s: &str) -> (r: Vec<String>)
    ensures
        seq_views(r@) == split_slash(s@),
        r@.len() >= 1,
{
    let n = s.unicode_len();
    let mut out: Vec<String> = Vec::new();
    out.push(String::new());
    proof {
        assert(s@.subrange(0, 0) =~= Seq::<char>::empty());
        assert(seq_views(out@) =~= split_slash(s@.subrange(0, 0)));
    }
    let mut i: usize = 0;
    while i < n
        invariant
            i <= n,
            n == s@.len(),
            out@.len() >= 1,
            seq_views(out@) == split_slash(s@.subrange(0, i as int)),
        decreases n - i,
    {
        let ghost pre = s@.subrange(0, i as int);
        let ghost cur = s@.subrange(0, i + 1);
        proof {
            assert(cur.drop_last() =~= pre);
            assert(cur.last() == s@[i as int]);
        }
        let c = s.get_char(i);
        if c == '/' {
            out.push(String::new());
            proof {
                assert(seq_views(out@) =~= split_slash(cur));
            }
        } else {
            let piece = s.substring_char(i, i + 1);
            proof {
                assert(piece@ =~= seq![s@[i as int]]);
            }
            let ghost before = out@;
            let mut last = match out.pop() {
                Some(x) => x,
                None => String::new(),
            };
            last.append(piece);
            out.push(last);
            proof {
                let init = split_slash(pre);
                assert(split_slash(cur) == init.update(
                    init.len() - 1,
                    init.last().push(s@[i as int]),
                ));
                assert(last@ == before.last()@ + seq![s@[i as int]]);
                assert(out@ == before.drop_last().push(last));
                assert(seq_views(out@) =~~= split_slash(cur));
            }
        }
        i += 1;
    }
    proof {
        assert(s@.subrange(0, n as int) =~= s@);
    }
    out
}

/// Normalize a segment list: drop empty and `.` segments, let `..` pop.
fn normalize_segments(segs: Vec<String>) -> (r: Vec<String>)
    ensures
        seq_views(r@) == normalize(seq_views(segs@)),
{
    let mut stack: Vec<String> = Vec::new();
    proof {
        assert(seq_views(segs@).subrange(0, 0) =~= Seq::<Seq<char>>::empty());
        assert(seq_views(stack@) =~= normalize(seq_views(segs@).subrange(0, 0)));
    }
    let mut j: usize = 0;
    while j < segs.len()
        invariant
            j <= segs@.len(),
            seq_views(stack@) == normalize(seq_views(segs@).subrange(0, j as int)),
        decreases segs@.len() - j,
    {
        let ghost all = seq_views(segs@);
        let ghost pre = all.subrange(0, j as int);
        let ghost cur = all.subrange(0, j + 1);
        proof {
            assert(cur.drop_last() =~= pre);
            assert(cur.last() == segs@[j as int]@);
            assert(normalize(cur) == norm_push(normalize(pre), segs@[j as int]@));
        }
        let seg = &segs[j];
        let len = seg.as_str().unicode_len();
        let is_empty = len == 0;
        let is_dot = len == 1 && seg.as_str().get_char(0) == '.';
        let is_dotdot = len == 2 && seg.as_str().get_char(0) == '.' && seg.as_str().get_char(1)
            == '.';
        proof {
            if is_empty {
                assert(seg@ =~= Seq::<char>::empty());
            }
            if is_dot {
                assert(seg@ =~= seq!['.']);
            }
            if is_dotdot {
                assert(seg@ =~= seq!['.', '.']);
            }
            if !is_empty {
                assert(seg@ != Seq::<char>::empty());
            }
            if !is_dot {
                assert(seg@ != seq!['.']) by {
                    if seg@ == seq!['.'] {
                        assert(seg@.len() == 1 && seg@[0] == '.');
                    }
                }
            }
            if !is_dotdot {
                assert(seg@ != seq!['.', '.']) by {
                    if seg@ == seq!['.', '.'] {
                        assert(seg@.len() == 2 && seg@[0] == '.' && seg@[1] == '.');
                    }
                }
            }
        }
        if is_empty || is_dot {
            // the segment vanishes
        } else if is_dotdot {
            if stack.len() > 0 {
                stack.pop();
                proof {
                    assert(seq_views(stack@) =~= normalize(cur));
                }
            }
        } else {
            stack.push(seg.clone());
            proof {
                assert(seq_views(stack@) =~= normalize(cur));
            }
        }
        j += 1;
    }
    proof {
        assert(seq_views(segs@).subrange(0, segs@.len() as int) =~= seq_views(segs@));
    }
    stack
}

/// Join normalized segments into the canonical absolute path text.
fn join_segments(segs: &Vec<String>) -> (r: String)
    ensures
        r@ == (if seq_views(segs@).len() == 0 {
            seq!['/']
        } else {
            join_abs(seq_views(segs@))
        }),
{
    proof {
        reveal_strlit("/");
    }
    if segs.len() == 0 {
        return String::from_str("/");
    }
    let mut acc = String::new();
    proof {
        assert(seq_views(segs@).subrange(0, 0) =~= Seq::<Seq<char>>::empty());
        assert(acc@ =~= join_abs(seq_views(segs@).subrange(0, 0)));
    }
    let mut j: usize = 0;
    while j < segs.len()
        invariant
            j <= segs@.len(),
            acc@ == join_abs(seq_views(segs@).subrange(0, j as int)),
        decreases segs@.len() - j,
    {
        let ghost all = seq_views(segs@);
        let ghost pre = all.subrange(0, j as int);
        let ghost cur = all.subrange(0, j + 1);
        proof {
            reveal_strlit("/");
            assert(cur.drop_last() =~= pre);
            assert(cur.last() == segs@[j as int]@);
        }
        acc.append("/");
        acc.append(segs[j].as_str());
        proof {
            assert(acc@ =~= join_abs(cur));
        }
        j += 1;
    }
    proof {
        assert(seq_views(segs@).subrange(0, segs@.len() as int) =~= seq_views(segs@));
    }
    acc
}

/// The canonical form of an absolute file path.
fn canonicalize_abs(p: &str) -> (r: String)
    ensures
        r@ == canonical_file_path(p@),
{
    let segs = split_path(p);
    let norm = normalize_segments(segs);
    join_segments(&norm)
}

/// An ASCII letter?
fn is_letter(c: char) -> (r: bool)
    ensures
        r == is_ascii_letter(c),
{
    let u = c as u32;
    (u >= 97 && u <= 122) || (u >= 65 && u <= 90)
}

/// The length of the longest all-letter prefix of `s`.
fn letter_prefix_len(s: &str) -> (i: usize)
    ensures
        i <= s@.len(),
        all_letters(s@, i as int),
        i < s@.len() ==> !is_ascii_letter(s@[i as int]),
{
    let n = s.unicode_len();
    let mut i: usize = 0;
    while i < n
        invariant
            i <= n,
            n == s@.len(),
            all_letters(s@, i as int),
        decreases n - i,
    {
        let c = s.get_char(i);
        if !is_letter(c) {
            return i;
        }
        i += 1;
        proof {
            assert(all_letters(s@, i as int));
        }
    }
    i
}

/// Does `s` begin with a URL scheme?
fn leading_scheme(s: &str) -> (r: bool)
    ensures
        r == has_leading_scheme(s@),
{
    let n = s.unicode_len();
    let i = letter_prefix_len(s);
    if i >= 1 && i < n && s.get_char(i) == ':' {
        proof {
            assert(has_leading_scheme(s@));
        }
        true
    } else {
        proof {
            assert forall|k: int| !(1 <= k < s@.len() && #[trigger] s@[k] == ':' && all_letters(
                s@,
                k,
            )) by {
                if 1 <= k < s@.len() && s@[k] == ':' && all_letters(s@, k) {
                    if k < i {
                        assert(is_ascii_letter(s@[k]));
                        assert(false);
                    } else if k == i {
                        assert(false);
                    } else {
                        assert(i < s@.len());
                        assert(is_ascii_letter(s@[i as int]));
                        assert(false);
                    }
                }
            }
        }
        false
    }
}

/// Resolve a requested specifier against the referring module.
///
/// `jet:` names map to the `virtual` scheme directly (whether the name is
/// reserved is the loader's question); local
/// `file:///` URLs and (against a file referrer) absolute, relative and
/// bare paths become normalized `file` identifiers; any other specifier
/// with a leading URL scheme is an absolute URL and passes through
/// unchanged; an empty specifier or a path with no usable referrer is an
/// invalid specifier.
pub fn resolve(requested: &str, referrer: &ModuleSpecifier) -> (r: Result<
    ModuleSpecifier,
    ResolutionError,
>)
    ensures
        resolved_id(r) == spec_resolve(requested@, referrer.scheme, referrer.path@),
{
    let n = requested.unicode_len();
    if str_starts_with(requested, "jet:") {
        let plen = "jet:".unicode_len();
        let name = requested.substring_char(plen, n);
        proof {
            assert(name@ =~= requested@.skip("jet:"@.len() as int));
        }
        return Ok(ModuleSpecifier { scheme: Scheme::Virtual, path: name.to_owned() });
    }
    if str_starts_with(requested, "file:///") {
        let plen = "file://".unicode_len();
        proof {
            reveal_strlit("file:///");
            reveal_strlit("file://");
        }
        let rest = requested.substring_char(plen, n);
        proof {
            assert(rest@ =~= requested@.skip("file://"@.len() as int));
        }
        let canon = canonicalize_abs(rest);
        return Ok(ModuleSpecifier { scheme: Scheme::File, path: canon });
    }
    if leading_scheme(requested) {
        return Ok(ModuleSpecifier { scheme: Scheme::OtherNetwork, path: requested.to_owned() });
    }
    if n > 0 && requested.get_char(0) == '/' {
        return match referrer.scheme {
            Scheme::File => {
                let canon = canonicalize_abs(requested);
                Ok(ModuleSpecifier { scheme: Scheme::File, path: canon })
            },
            _ => Err(ResolutionError::InvalidSpecifier),
        };
    }
    if n > 0 {
        return match referrer.scheme {
            Scheme::File => {
                let canon = resolve_relative(referrer.path.as_str(), requested);
                Ok(ModuleSpecifier { scheme: Scheme::File, path: canon })
            },
            _ => Err(ResolutionError::InvalidSpecifier),
        };
    }
    Err(ResolutionError::InvalidSpecifier)
}

/// Join a relative specifier against the directory of the referrer's path
/// and normalize the result.
fn resolve_relative(ref_path: &str, rel: &str) -> (r: String)
    ensures
        r@ == canonical_join(ref_path@, rel@),
{
    let mut base = split_path(ref_path);
    proof {
        lemma_split_nonempty(ref_path@);
    }
    base.pop();
    proof {
        assert(seq_views(base@) =~= split_slash(ref_path@).drop_last());
    }
    let relsegs = split_path(rel);
    let ghost base_start = base@;
    proof {
        assert(base@ =~= base_start + relsegs@.subrange(0, 0));
    }
    let mut j: usize = 0;
    while j < relsegs.len()
        invariant
            j <= relsegs@.len(),
            base@ == base_start + relsegs@.subrange(0, j as int),
        decreases relsegs@.len() - j,
    {
        base.push(relsegs[j].clone());
        proof {
            assert(base@ =~= base_start + relsegs@.subrange(0, j + 1));
        }
        j += 1;
    }
    proof {
        assert(relsegs@.subrange(0, relsegs@.len() as int) =~= relsegs@);
        assert(base@ == base_start + relsegs@);
        assert forall|k: int| 0 <= k < base@.len() implies seq_views(base@)[k] == (split_slash(
            ref_path@,
        ).drop_last() + split_slash(rel@))[k] by {
            assert(seq_views(base@)[k] == base@[k]@);
            if k < base_start.len() {
                assert(base@[k] == base_start[k]);
                assert(seq_views(base_start)[k] == base_start[k]@);
            } else {
                assert(base@[k] == relsegs@[k - base_start.len()]);
                assert(seq_views(relsegs@)[k - base_start.len()] == relsegs@[k
                    - base_start.len()]@);
            }
        }
        assert(seq_views(base@) =~= split_slash(ref_path@).drop_last() + split_slash(rel@));
    }
    let norm = normalize_segments(base);
    join_segments(&norm)
}

} // verus!
