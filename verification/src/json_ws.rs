//! Whitespace in the reader's input: any ASCII whitespace byte (space, tab,
//! line feed, form feed, carriage return) may stand for any other without
//! changing what the reader makes of a document, so a document may be
//! spread over several lines.
use vstd::prelude::*;
use crate::json_parse::{
    after_close, after_value, digits_end, lemma_digits_end_bound, escaped_scan, has_literal, is_digit, is_ws, lit_false,
    lit_null, lit_true, number_len, skip_ws_lenient, skip_ws_strict, spec_close,
    spec_escaped_len_at, spec_parse, spec_quoted, spec_run,
    spec_step, initial_state, ParseState,
};

verus! {

/// `b` is one of the ASCII whitespace bytes: space, tab, line feed, form
/// feed or carriage return.
pub open spec fn ascii_space(b: u8) -> bool {
    b == 0x20 || b == 0x09 || b == 0x0a || b == 0x0c || b == 0x0d
}

/// `c` and `d` differ at most in which whitespace byte stands where.
pub open spec fn same_but_spaces(c: Seq<u8>, d: Seq<u8>) -> bool {
    &&& c.len() == d.len()
    &&& forall|j: int|
        0 <= j < c.len() ==> (#[trigger] c[j] == d[j] || (ascii_space(c[j]) && ascii_space(d[j])))
}

/// The reader's notion of whitespace, in the form the proofs below use.
spec fn ws_equiv(c: Seq<u8>, d: Seq<u8>) -> bool {
    &&& c.len() == d.len()
    &&& forall|j: int| 0 <= j < c.len() ==> (#[trigger] c[j] == d[j] || (is_ws(c[j]) && is_ws(d[j])))
}

/// The reader skips exactly the ASCII whitespace bytes.
pub proof fn lemma_ws_is_ascii_space(b: u8)
    ensures
        is_ws(b) <==> ascii_space(b),
{
}

proof fn lemma_skip_strict_same(c: Seq<u8>, d: Seq<u8>, i: int)
    requires
        ws_equiv(c, d),
    ensures
        skip_ws_strict(c, i) == skip_ws_strict(d, i),
    decreases c.len() - i,
{
    if 0 <= i < c.len() {
        assert(c[i] == d[i] || (is_ws(c[i]) && is_ws(d[i])));
        lemma_skip_strict_same(c, d, i + 1);
    }
}

proof fn lemma_skip_lenient_same(c: Seq<u8>, d: Seq<u8>, i: int)
    requires
        ws_equiv(c, d),
    ensures
        skip_ws_lenient(c, i) == skip_ws_lenient(d, i),
    decreases c.len() - i,
{
    if 0 <= i < c.len() {
        assert(c[i] == d[i] || (is_ws(c[i]) && is_ws(d[i])));
        lemma_skip_lenient_same(c, d, i + 1);
    }
}

proof fn lemma_digits_same(c: Seq<u8>, d: Seq<u8>, i: int)
    requires
        ws_equiv(c, d),
    ensures
        digits_end(c, i) == digits_end(d, i),
    decreases c.len() - i,
{
    if 0 <= i < c.len() {
        assert(c[i] == d[i] || (is_ws(c[i]) && is_ws(d[i])));
        lemma_digits_same(c, d, i + 1);
    }
}

proof fn lemma_scan_same(c: Seq<u8>, d: Seq<u8>, i: int, escaped: bool)
    requires
        ws_equiv(c, d),
    ensures
        escaped_scan(c, i, escaped) == escaped_scan(d, i, escaped),
    decreases c.len() - i,
{
    if 0 <= i < c.len() {
        assert(c[i] == d[i] || (is_ws(c[i]) && is_ws(d[i])));
        lemma_scan_same(c, d, i + 1, true);
        lemma_scan_same(c, d, i + 1, false);
    }
}

proof fn lemma_literal_same(c: Seq<u8>, d: Seq<u8>, i: int, lit: Seq<u8>)
    requires
        ws_equiv(c, d),
        forall|k: int| 0 <= k < lit.len() ==> !is_ws(#[trigger] lit[k]),
    ensures
        has_literal(c, i, lit) == has_literal(d, i, lit),
{
    if 0 <= i && i + lit.len() <= c.len() {
        if c.subrange(i, i + lit.len()) == lit {
            assert forall|k: int| 0 <= k < lit.len() implies d.subrange(i, i + lit.len())[k]
                == lit[k] by {
                assert(c.subrange(i, i + lit.len())[k] == c[i + k]);
                assert(c[i + k] == d[i + k] || (is_ws(c[i + k]) && is_ws(d[i + k])));
            }
            assert(d.subrange(i, i + lit.len()) =~= lit);
        }
        if d.subrange(i, i + lit.len()) == lit {
            assert forall|k: int| 0 <= k < lit.len() implies c.subrange(i, i + lit.len())[k]
                == lit[k] by {
                assert(d.subrange(i, i + lit.len())[k] == d[i + k]);
                assert(c[i + k] == d[i + k] || (is_ws(c[i + k]) && is_ws(d[i + k])));
            }
            assert(c.subrange(i, i + lit.len()) =~= lit);
        }
    }
}

proof fn lemma_close_same(c: Seq<u8>, d: Seq<u8>, s: ParseState)
    requires
        ws_equiv(c, d),
        0 <= s.cursor < c.len(),
    ensures
        spec_close(c, s) == spec_close(d, s),
{
    let k = s.cursor + 1;
    lemma_skip_lenient_same(c, d, k);
    lemma_skip_lenient_same(c, d, k + 1);
    if k < c.len() {
        assert(c[k] == d[k] || (is_ws(c[k]) && is_ws(d[k])));
    }
    assert(after_close(c, k) == after_close(d, k));
}

/// After a value that ends before `k`, reading resumes at the same place.
proof fn lemma_after_value_same(c: Seq<u8>, d: Seq<u8>, k: int)
    requires
        ws_equiv(c, d),
    ensures
        after_value(c, k) == after_value(d, k),
{
    if 0 <= k < c.len() {
        assert(c[k] == d[k] || (is_ws(c[k]) && is_ws(d[k])));
    }
    lemma_skip_strict_same(c, d, k);
    lemma_skip_strict_same(c, d, k + 1);
}

proof fn lemma_quoted_same(c: Seq<u8>, d: Seq<u8>, s: ParseState)
    requires
        ws_equiv(c, d),
        0 <= s.cursor < c.len(),
    ensures
        spec_quoted(c, s) == spec_quoted(d, s),
{
    let i = s.cursor;
    lemma_scan_same(c, d, i + 1, false);
    if let Some(len) = spec_escaped_len_at(c, i) {
        let k = i + len;
        if 0 <= k < c.len() {
            assert(c[k] == d[k] || (is_ws(c[k]) && is_ws(d[k])));
        }
        lemma_skip_strict_same(c, d, k + 1);
        lemma_after_value_same(c, d, k);
    }
}

proof fn lemma_number_same(c: Seq<u8>, d: Seq<u8>, i: int)
    requires
        ws_equiv(c, d),
        0 <= i < c.len(),
    ensures
        number_len(c, i) == number_len(d, i),
{
    lemma_digits_same(c, d, i + 1);
    lemma_digits_end_bound(c, i + 1);
    if let Some(e1) = digits_end(c, i + 1) {
        assert(c[e1] == d[e1] || (is_ws(c[e1]) && is_ws(d[e1])));
        lemma_digits_same(c, d, e1 + 1);
    }
}

proof fn lemma_step_same(c: Seq<u8>, d: Seq<u8>, s: ParseState)
    requires
        ws_equiv(c, d),
        0 <= s.cursor < c.len(),
    ensures
        spec_step(c, s) == spec_step(d, s),
{
    let i = s.cursor;
    assert(c[i] == d[i] || (is_ws(c[i]) && is_ws(d[i])));
    if c[i] != d[i] {
        assert(spec_step(c, s) is None);
        assert(spec_step(d, s) is None);
    } else {
        let b = c[i];
        if b == 0x5b || b == 0x7b {
            lemma_skip_strict_same(c, d, i + 1);
        } else if b == 0x5d || b == 0x7d {
            lemma_close_same(c, d, s);
        } else if b == 0x22 {
            lemma_quoted_same(c, d, s);
        } else if b == 0x2d || is_digit(b) {
            lemma_number_same(c, d, i);
            if let Some(n) = number_len(c, i) {
                lemma_after_value_same(c, d, i + n);
            }
        } else if b == 0x6e {
            lemma_literal_same(c, d, i, lit_null());
            lemma_after_value_same(c, d, i + 4);
        } else if b == 0x74 {
            lemma_literal_same(c, d, i, lit_true());
            lemma_after_value_same(c, d, i + 4);
        } else if b == 0x66 {
            lemma_literal_same(c, d, i, lit_false());
            lemma_after_value_same(c, d, i + 5);
        }
    }
}

proof fn lemma_run_same(c: Seq<u8>, d: Seq<u8>, s: ParseState)
    requires
        ws_equiv(c, d),
    ensures
        spec_run(c, s) == spec_run(d, s),
    decreases c.len() - s.cursor,
{
    if 0 <= s.cursor < c.len() {
        lemma_step_same(c, d, s);
        if let Some(s2) = spec_step(c, s) {
            if s.cursor < s2.cursor <= c.len() {
                lemma_run_same(c, d, s2);
            }
        }
    }
}

/// Two documents that differ only in which ASCII whitespace byte stands
/// where (a line feed in place of a space, say) are read alike: both are
/// rejected, or both give the same metadata list.
pub proof fn lemma_parse_ignores_space_kind(c: Seq<u8>, d: Seq<u8>)
    requires
        same_but_spaces(c, d),
    ensures
        spec_parse(c) == spec_parse(d),
{
    assert forall|j: int| 0 <= j < c.len() implies (#[trigger] c[j] == d[j] || (is_ws(c[j]) && is_ws(
        d[j],
    ))) by {
        assert(c[j] == d[j] || (ascii_space(c[j]) && ascii_space(d[j])));
    }
    lemma_run_same(c, d, initial_state());
}

/// A space in a document may be replaced by a line feed, a tab, a carriage
/// return or a form feed without changing what the reader makes of it.
pub proof fn lemma_parse_space_to_newline(c: Seq<u8>, i: int, b: u8)
    requires
        0 <= i < c.len(),
        c[i] == 0x20,
        ascii_space(b),
    ensures
        spec_parse(c.update(i, b)) == spec_parse(c),
{
    let d = c.update(i, b);
    assert forall|j: int| 0 <= j < c.len() implies (#[trigger] c[j] == d[j] || (ascii_space(c[j])
        && ascii_space(d[j]))) by {}
    lemma_parse_ignores_space_kind(c, d);
}

} // verus!
