//! The host/script boundary value type.
//!
//! A JSON-like tagged union is the only value shape crossing the boundary,
//! in either direction. Mappings keep their insertion order for
//! serialization, and their keys are unique; both directions of the
//! boundary carry the tree unchanged.
use vstd::prelude::*;

verus! {

/// A JSON-like value, the only shape crossing the host/script boundary.
#[derive(PartialEq, Eq, Debug)]
pub enum HostValue {
    Null,
    Bool(bool),
    Int(i64),
    Text(String),
    Sequence(Vec<HostValue>),
    Mapping(Vec<(String, HostValue)>),
}

/// The escape of one character in the textual representation.
pub open spec fn escaped_char(c: char) -> Seq<char> {
    if c == '"' {
        seq!['\\', '"']
    } else if c == '\\' {
        seq!['\\', '\\']
    } else if c == '\n' {
        seq!['\\', 'n']
    } else if c == '\r' {
        seq!['\\', 'r']
    } else if c == '\t' {
        seq!['\\', 't']
    } else {
        seq![c]
    }
}

/// The escape of a whole string body.
pub open spec fn escaped(s: Seq<char>) -> Seq<char>
    decreases s.len(),
{
    if s.len() == 0 {
        Seq::empty()
    } else {
        escaped(s.drop_last()) + escaped_char(s.last())
    }
}

/// The decimal digit characters.
pub open spec fn dec_digit(d: int) -> char {
    if d == 0 {
        '0'
    } else if d == 1 {
        '1'
    } else if d == 2 {
        '2'
    } else if d == 3 {
        '3'
    } else if d == 4 {
        '4'
    } else if d == 5 {
        '5'
    } else if d == 6 {
        '6'
    } else if d == 7 {
        '7'
    } else if d == 8 {
        '8'
    } else {
        '9'
    }
}

/// The decimal text of a nonnegative number.
pub open spec fn nat_text(n: nat) -> Seq<char>
    decreases n,
{
    if n < 10 {
        seq![dec_digit(n as int)]
    } else {
        nat_text(n / 10).push(dec_digit((n % 10) as int))
    }
}

/// The decimal text of a number, with a sign when it is negative.
pub open spec fn int_text(n: int) -> Seq<char> {
    if n < 0 {
        seq!['-'] + nat_text((-n) as nat)
    } else {
        nat_text(n as nat)
    }
}

/// The textual structured-data representation of a value.
pub open spec fn json_of(v: HostValue) -> Seq<char>
    decreases v, 1int,
{
    match v {
        HostValue::Null => "null"@,
        HostValue::Bool(b) => if b {
            "true"@
        } else {
            "false"@
        },
        HostValue::Int(n) => int_text(n as int),
        HostValue::Text(s) => seq!['"'] + escaped(s@) + seq!['"'],
        HostValue::Sequence(items) => seq!['['] + list_prefix_text(items, items@.len() as int)
            + seq![']'],
        HostValue::Mapping(fields) => seq!['{'] + map_prefix_text(fields, fields@.len() as int)
            + seq!['}'],
    }
}

/// The comma-separated texts of the first `i` elements of a sequence.
pub open spec fn list_prefix_text(items: Vec<HostValue>, i: int) -> Seq<char>
    decreases items, 0int, i,
{
    if i <= 0 || i > items@.len() {
        Seq::empty()
    } else if i == 1 {
        json_of(items@[0])
    } else {
        list_prefix_text(items, i - 1) + seq![','] + json_of(items@[i - 1])
    }
}

/// The comma-separated `"key":value` texts of the first `i` fields of a
/// mapping, in insertion order.
pub open spec fn map_prefix_text(fields: Vec<(String, HostValue)>, i: int) -> Seq<char>
    decreases fields, 0int, i,
{
    if i <= 0 || i > fields@.len() {
        Seq::empty()
    } else {
        let entry = seq!['"'] + escaped(fields@[i - 1].0@) + seq!['"', ':'] + json_of(
            fields@[i - 1].1,
        );
        if i == 1 {
            entry
        } else {
            map_prefix_text(fields, i - 1) + seq![','] + entry
        }
    }
}

/// Well-formedness: every mapping in the tree has pairwise-distinct keys.
pub open spec fn wf_value(v: HostValue) -> bool
    decreases v,
{
    match v {
        HostValue::Null => true,
        HostValue::Bool(_) => true,
        HostValue::Int(_) => true,
        HostValue::Text(_) => true,
        HostValue::Sequence(items) => forall|i: int|
            0 <= i < items@.len() ==> wf_value(#[trigger] items@[i]),
        HostValue::Mapping(fields) => (forall|i: int, j: int|
            0 <= i < j < fields@.len() ==> (#[trigger] fields@[i]).0@ != (
            #[trigger] fields@[j]).0@) && (forall|i: int|
            0 <= i < fields@.len() ==> wf_value((#[trigger] fields@[i]).1)),
    }
}

/// Deep equality of two boundary values: same shape, same scalars, same
/// text, elementwise-equal sequences, and mappings equal key-for-key and
/// value-for-value in the same order.
pub open spec fn value_eq(a: HostValue, b: HostValue) -> bool
    decreases a,
{
    match (a, b) {
        (HostValue::Null, HostValue::Null) => true,
        (HostValue::Bool(x), HostValue::Bool(y)) => x == y,
        (HostValue::Int(x), HostValue::Int(y)) => x == y,
        (HostValue::Text(x), HostValue::Text(y)) => x@ == y@,
        (HostValue::Sequence(xs), HostValue::Sequence(ys)) => xs@.len() == ys@.len()
            && (forall|i: int|
            0 <= i < xs@.len() ==> value_eq(#[trigger] xs@[i], ys@[i])),
        (HostValue::Mapping(xs), HostValue::Mapping(ys)) => xs@.len() == ys@.len() && (forall|
            i: int,
        |
            0 <= i < xs@.len() ==> (#[trigger] xs@[i]).0@ == ys@[i].0@ && value_eq(
                xs@[i].1,
                ys@[i].1,
            )),
        _ => false,
    }
}

/// Decide deep equality of two boundary values.
pub fn host_value_eq(a: &HostValue, b: &HostValue) -> (r: bool)
    ensures
        r == value_eq(*a, *b),
    decreases *a,
{
    match (a, b) {
        (HostValue::Null, HostValue::Null) => true,
        (HostValue::Bool(x), HostValue::Bool(y)) => x == y,
        (HostValue::Int(x), HostValue::Int(y)) => x == y,
        (HostValue::Text(x), HostValue::Text(y)) => crate::text::str_eq(x.as_str(), y.as_str()),
        (HostValue::Sequence(xs), HostValue::Sequence(ys)) => {
            if xs.len() != ys.len() {
                return false;
            }
            let mut i: usize = 0;
            while i < xs.len()
                invariant
                    i <= xs@.len(),
                    xs@.len() == ys@.len(),
                    *a == HostValue::Sequence(*xs),
                    *b == HostValue::Sequence(*ys),
                    forall|k: int| 0 <= k < i ==> value_eq(#[trigger] xs@[k], ys@[k]),
                decreases xs@.len() - i,
            {
                proof {
                    assert(decreases_to!(*a => (*a)->Sequence_0));
                    assert(decreases_to!(*xs => xs@));
                    assert(decreases_to!(xs@ => xs@[i as int]));
                    assert(decreases_to!(*a => xs@[i as int]));
                }
                if !host_value_eq(&xs[i], &ys[i]) {
                    return false;
                }
                i += 1;
            }
            true
        },
        (HostValue::Mapping(xs), HostValue::Mapping(ys)) => {
            if xs.len() != ys.len() {
                return false;
            }
            let mut i: usize = 0;
            while i < xs.len()
                invariant
                    i <= xs@.len(),
                    xs@.len() == ys@.len(),
                    *a == HostValue::Mapping(*xs),
                    *b == HostValue::Mapping(*ys),
                    forall|k: int|
                        0 <= k < i ==> (#[trigger] xs@[k]).0@ == ys@[k].0@ && value_eq(
                            xs@[k].1,
                            ys@[k].1,
                        ),
                decreases xs@.len() - i,
            {
                if !crate::text::str_eq(xs[i].0.as_str(), ys[i].0.as_str()) {
                    return false;
                }
                proof {
                    assert(decreases_to!(*a => (*a)->Mapping_0));
                    assert(decreases_to!(*xs => xs@));
                    assert(decreases_to!(xs@ => xs@[i as int]));
                    assert(decreases_to!(xs@[i as int] => xs@[i as int].1));
                    assert(decreases_to!(*a => xs@[i as int].1));
                }
                if !host_value_eq(&xs[i].1, &ys[i].1) {
                    return false;
                }
                i += 1;
            }
            true
        },
        _ => false,
    }
}

/// Serialization respects deep equality: two deep-equal values have the
/// same textual representation.
pub proof fn lemma_serialization_respects_value_eq(a: HostValue, b: HostValue)
    requires
        value_eq(a, b),
    ensures
        json_of(a) == json_of(b),
    decreases a, 1int,
{
    match (a, b) {
        (HostValue::Sequence(xs), HostValue::Sequence(ys)) => {
            assert(decreases_to!(a => a->Sequence_0));
            lemma_list_prefix_respects_value_eq(xs, ys, xs@.len() as int);
        },
        (HostValue::Mapping(xs), HostValue::Mapping(ys)) => {
            assert(decreases_to!(a => a->Mapping_0));
            lemma_map_prefix_respects_value_eq(xs, ys, xs@.len() as int);
        },
        _ => {},
    }
}

proof fn lemma_list_prefix_respects_value_eq(xs: Vec<HostValue>, ys: Vec<HostValue>, i: int)
    requires
        xs@.len() == ys@.len(),
        forall|k: int| 0 <= k < xs@.len() ==> value_eq(#[trigger] xs@[k], ys@[k]),
    ensures
        list_prefix_text(xs, i) == list_prefix_text(ys, i),
    decreases xs, 0int, i,
{
    if i <= 0 || i > xs@.len() {
    } else {
        assert(decreases_to!(xs => xs@));
        assert(decreases_to!(xs@ => xs@[i - 1]));
        assert(decreases_to!(xs => xs@[i - 1]));
        lemma_serialization_respects_value_eq(xs@[i - 1], ys@[i - 1]);
        if i > 1 {
            lemma_list_prefix_respects_value_eq(xs, ys, i - 1);
        }
    }
}

proof fn lemma_map_prefix_respects_value_eq(
    xs: Vec<(String, HostValue)>,
    ys: Vec<(String, HostValue)>,
    i: int,
)
    requires
        xs@.len() == ys@.len(),
        forall|k: int|
            0 <= k < xs@.len() ==> (#[trigger] xs@[k]).0@ == ys@[k].0@ && value_eq(
                xs@[k].1,
                ys@[k].1,
            ),
    ensures
        map_prefix_text(xs, i) == map_prefix_text(ys, i),
    decreases xs, 0int, i,
{
    if i <= 0 || i > xs@.len() {
    } else {
        assert(decreases_to!(xs => xs@));
        assert(decreases_to!(xs@ => xs@[i - 1]));
        assert(decreases_to!(xs@[i - 1] => xs@[i - 1].1));
        assert(decreases_to!(xs => xs@[i - 1].1));
        lemma_serialization_respects_value_eq(xs@[i - 1].1, ys@[i - 1].1);
        if i > 1 {
            lemma_map_prefix_respects_value_eq(xs, ys, i - 1);
        }
    }
}

/// Append the escaped body of `s`.
fn append_escaped(out: &mut String, s: &str)
    ensures
        final(out)@ == old(out)@ + escaped(s@),
{
    let n = s.unicode_len();
    let mut i: usize = 0;
    proof {
        assert(s@.subrange(0, 0) =~= Seq::<char>::empty());
        assert(old(out)@ + escaped(s@.subrange(0, 0)) =~= old(out)@);
    }
    while i < n
        invariant
            i <= n,
            n == s@.len(),
            out@ == old(out)@ + escaped(s@.subrange(0, i as int)),
        decreases n - i,
    {
        proof {
            assert(s@.subrange(0, i + 1).drop_last() =~= s@.subrange(0, i as int));
            assert(s@.subrange(0, i + 1).last() == s@[i as int]);
        }
        let c = s.get_char(i);
        if c == '"' {
            out.append("\\\"");
            proof {
                reveal_strlit("\\\"");
                assert("\\\""@ =~= escaped_char(s@[i as int]));
            }
        } else if c == '\\' {
            out.append("\\\\");
            proof {
                reveal_strlit("\\\\");
                assert("\\\\"@ =~= escaped_char(s@[i as int]));
            }
        } else if c == '\n' {
            out.append("\\n");
            proof {
                reveal_strlit("\\n");
                assert("\\n"@ =~= escaped_char(s@[i as int]));
            }
        } else if c == '\r' {
            out.append("\\r");
            proof {
                reveal_strlit("\\r");
                assert("\\r"@ =~= escaped_char(s@[i as int]));
            }
        } else if c == '\t' {
            out.append("\\t");
            proof {
                reveal_strlit("\\t");
                assert("\\t"@ =~= escaped_char(s@[i as int]));
            }
        } else {
            let piece = s.substring_char(i, i + 1);
            out.append(piece);
            proof {
                assert(piece@ =~= escaped_char(s@[i as int]));
            }
        }
        proof {
            assert(out@ =~= old(out)@ + escaped(s@.subrange(0, i + 1)));
        }
        i += 1;
    }
    proof {
        assert(s@.subrange(0, n as int) =~= s@);
    }
}

/// The text emitted by a stack of digit values, highest last pushed.
spec fn rev_digit_text(ds: Seq<u64>) -> Seq<char>
    decreases ds.len(),
{
    if ds.len() == 0 {
        Seq::empty()
    } else {
        seq![dec_digit(ds.last() as int)] + rev_digit_text(ds.drop_last())
    }
}

/// Append one decimal digit character.
fn append_digit(out: &mut String, d: u64)
    requires
        d < 10,
    ensures
        final(out)@ == old(out)@ + seq![dec_digit(d as int)],
{
    proof {
        reveal_strlit("0");
        reveal_strlit("1");
        reveal_strlit("2");
        reveal_strlit("3");
        reveal_strlit("4");
        reveal_strlit("5");
        reveal_strlit("6");
        reveal_strlit("7");
        reveal_strlit("8");
        reveal_strlit("9");
    }
    if d == 0 {
        out.append("0");
    } else if d == 1 {
        out.append("1");
    } else if d == 2 {
        out.append("2");
    } else if d == 3 {
        out.append("3");
    } else if d == 4 {
        out.append("4");
    } else if d == 5 {
        out.append("5");
    } else if d == 6 {
        out.append("6");
    } else if d == 7 {
        out.append("7");
    } else if d == 8 {
        out.append("8");
    } else {
        out.append("9");
    }
    proof {
        assert(final(out)@ =~= old(out)@ + seq![dec_digit(d as int)]);
    }
}

/// Append the decimal text of `n`.
fn append_int(out: &mut String, n: i64)
    ensures
        final(out)@ == old(out)@ + int_text(n as int),
{
    if n == 0 {
        out.append("0");
        proof {
            reveal_strlit("0");
            assert(final(out)@ =~= old(out)@ + int_text(0));
        }
        return ;
    }
    let m: u64 = if n >= 0 {
        n as u64
    } else {
        (-(n as i128)) as u64
    };
    proof {
        assert(m as int == if n as int >= 0 {
            n as int
        } else {
            -(n as int)
        });
    }
    if n < 0 {
        out.append("-");
        proof {
            reveal_strlit("-");
        }
    }
    let ghost signed = out@;
    let mut digits: Vec<u64> = Vec::new();
    let mut x: u64 = m;
    proof {
        assert(rev_digit_text(digits@) =~= Seq::<char>::empty());
        assert(nat_text(m as nat) =~= nat_text(x as nat) + rev_digit_text(digits@));
    }
    while x > 0
        invariant
            x <= m,
            m > 0,
            forall|k: int| 0 <= k < digits@.len() ==> digits@[k] < 10,
            nat_text(m as nat) == (if x > 0 {
                nat_text(x as nat)
            } else {
                Seq::<char>::empty()
            }) + rev_digit_text(digits@),
        decreases x,
    {
        let d: u64 = x % 10;
        let ghost before = digits@;
        digits.push(d);
        proof {
            assert(digits@.drop_last() =~= before);
            assert(rev_digit_text(digits@) == seq![dec_digit(d as int)] + rev_digit_text(before));
            if x >= 10 {
                assert(nat_text(x as nat) == nat_text((x / 10) as nat).push(
                    dec_digit((x % 10) as int),
                ));
                assert(nat_text(x as nat) =~= nat_text((x / 10) as nat) + seq![
                    dec_digit((x % 10) as int),
                ]);
            } else {
                assert(x % 10 == x) by (nonlinear_arith)
                    requires 0 < x < 10;
                assert(x / 10 == 0) by (nonlinear_arith)
                    requires 0 < x < 10;
            }
            assert(nat_text(m as nat) =~= (if x / 10 > 0 {
                nat_text((x / 10) as nat)
            } else {
                Seq::<char>::empty()
            }) + rev_digit_text(digits@));
        }
        x = x / 10;
    }
    proof {
        assert(nat_text(m as nat) == rev_digit_text(digits@));
    }
    let mut j: usize = digits.len();
    proof {
        assert(digits@.subrange(0, digits@.len() as int) =~= digits@);
    }
    while j > 0
        invariant
            j <= digits@.len(),
            forall|k: int| 0 <= k < digits@.len() ==> digits@[k] < 10,
            out@ + rev_digit_text(digits@.subrange(0, j as int)) == signed + rev_digit_text(
                digits@,
            ),
        decreases j,
    {
        let d = digits[j - 1];
        proof {
            assert(digits@.subrange(0, j as int).drop_last() =~= digits@.subrange(0, j - 1));
            assert(digits@.subrange(0, j as int).last() == d);
        }
        append_digit(out, d);
        proof {
            assert(out@ + rev_digit_text(digits@.subrange(0, j - 1)) =~= signed + rev_digit_text(
                digits@,
            ));
        }
        j -= 1;
    }
    proof {
        assert(digits@.subrange(0, 0) =~= Seq::<u64>::empty());
        assert(out@ =~= signed + rev_digit_text(digits@));
        if n < 0 {
            assert(final(out)@ =~= old(out)@ + int_text(n as int));
        } else {
            assert(final(out)@ =~= old(out)@ + int_text(n as int));
        }
    }
}

/// Append the textual representation of `v`.
fn append_value(out: &mut String, v: &HostValue)
    ensures
        final(out)@ == old(out)@ + json_of(*v),
    decreases *v,
{
    match v {
        HostValue::Null => {
            out.append("null");
        },
        HostValue::Bool(b) => {
            if *b {
                out.append("true");
            } else {
                out.append("false");
            }
        },
        HostValue::Int(n) => {
            append_int(out, *n);
        },
        HostValue::Text(s) => {
            out.append("\"");
            append_escaped(out, s.as_str());
            out.append("\"");
            proof {
                reveal_strlit("\"");
                assert(final(out)@ =~= old(out)@ + json_of(*v));
            }
        },
        HostValue::Sequence(items) => {
            out.append("[");
            proof {
                reveal_strlit("[");
                reveal_strlit(",");
                reveal_strlit("]");
            }
            let ghost base = out@;
            proof {
                assert(base =~= old(out)@ + seq!['[']);
                assert(base + list_prefix_text(*items, 0) =~= base);
            }
            let mut j: usize = 0;
            while j < items.len()
                invariant
                    j <= items@.len(),
                    out@ == base + list_prefix_text(*items, j as int),
                    base == old(out)@ + seq!['['],
                    *v == HostValue::Sequence(*items),
                decreases items@.len() - j,
            {
                if j > 0 {
                    out.append(",");
                }
                proof {
                    assert(*items == (*v)->Sequence_0);
                    assert(decreases_to!(*v => (*v)->Sequence_0));
                    assert(decreases_to!(*items => items@));
                    assert(decreases_to!(items@ => items@[j as int]));
                    assert(decreases_to!(*v => items@[j as int]));
                }
                append_value(out, &items[j]);
                proof {
                    reveal_strlit(",");
                    assert(out@ =~= base + list_prefix_text(*items, j + 1));
                }
                j += 1;
            }
            out.append("]");
            proof {
                assert(final(out)@ =~= old(out)@ + json_of(*v));
            }
        },
        HostValue::Mapping(fields) => {
            out.append("{");
            proof {
                reveal_strlit("{");
                reveal_strlit(",");
                reveal_strlit("\"");
                reveal_strlit("\":");
                reveal_strlit("}");
            }
            let ghost base = out@;
            proof {
                assert(base =~= old(out)@ + seq!['{']);
                assert(base + map_prefix_text(*fields, 0) =~= base);
            }
            let mut j: usize = 0;
            while j < fields.len()
                invariant
                    j <= fields@.len(),
                    out@ == base + map_prefix_text(*fields, j as int),
                    base == old(out)@ + seq!['{'],
                    *v == HostValue::Mapping(*fields),
                decreases fields@.len() - j,
            {
                if j > 0 {
                    out.append(",");
                }
                out.append("\"");
                append_escaped(out, fields[j].0.as_str());
                out.append("\":");
                proof {
                    assert(*fields == (*v)->Mapping_0);
                    assert(decreases_to!(*v => (*v)->Mapping_0));
                    assert(decreases_to!(*fields => fields@));
                    assert(decreases_to!(fields@ => fields@[j as int]));
                    assert(decreases_to!(fields@[j as int] => fields@[j as int].1));
                    assert(decreases_to!(*v => fields@[j as int].1));
                }
                append_value(out, &fields[j].1);
                proof {
                    reveal_strlit(",");
                    reveal_strlit("\"");
                    reveal_strlit("\":");
                    assert(out@ =~= base + map_prefix_text(*fields, j + 1));
                }
                j += 1;
            }
            out.append("}");
            proof {
                assert(final(out)@ =~= old(out)@ + json_of(*v));
            }
        },
    }
}

/// Serialize a value to its textual structured-data representation: the
/// form in which a settled result is reported to the caller.
pub fn to_json_text(v: &HostValue) -> (r: String)
    ensures
        r@ == json_of(*v),
{
    let mut out = String::new();
    append_value(&mut out, v);
    proof {
        assert(out@ =~= json_of(*v));
    }
    out
}

} // verus!
