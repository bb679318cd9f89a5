//! Small facts and helpers about text: byte lengths, byte-wise order of
//! strings, runs of spaces and joined lists.
use vstd::prelude::*;
use vstd::utf8::encode_utf8;

verus! {

/// The length in bytes of the UTF-8 encoding of `s`, which `str::len` gives.
pub open spec fn blen(s: Seq<char>) -> nat {
    encode_utf8(s).len()
}

/// `n` spaces.
pub open spec fn spaces(n: nat) -> Seq<char>
    decreases n,
{
    if n == 0 {
        Seq::empty()
    } else {
        spaces((n - 1) as nat).push(' ')
    }
}

/// `parts` joined by `sep`.
pub open spec fn join(parts: Seq<Seq<char>>, sep: Seq<char>) -> Seq<char>
    decreases parts.len(),
{
    if parts.len() == 0 {
        Seq::empty()
    } else if parts.len() == 1 {
        parts[0]
    } else {
        join(parts.drop_last(), sep) + sep + parts.last()
    }
}

/// The views of a list of string slices.
pub open spec fn strs_view(v: Seq<&str>) -> Seq<Seq<char>> {
    v.map_values(|s: &str| s@)
}

/// Byte-wise lexicographic order, the order of `str`.
pub open spec fn bytes_lt(a: Seq<u8>, b: Seq<u8>) -> bool
    decreases a.len(),
{
    if a.len() == 0 {
        b.len() > 0
    } else if b.len() == 0 {
        false
    } else if a[0] != b[0] {
        a[0] < b[0]
    } else {
        bytes_lt(a.drop_first(), b.drop_first())
    }
}

/// The order of string slices: by their UTF-8 bytes.
pub open spec fn str_lt(a: Seq<char>, b: Seq<char>) -> bool {
    bytes_lt(encode_utf8(a), encode_utf8(b))
}

pub proof fn lemma_bytes_lt_trans(a: Seq<u8>, b: Seq<u8>, c: Seq<u8>)
    requires
        bytes_lt(a, b),
        bytes_lt(b, c),
    ensures
        bytes_lt(a, c),
    decreases a.len(),
{
    if a.len() > 0 && b.len() > 0 && c.len() > 0 && a[0] == b[0] && b[0] == c[0] {
        lemma_bytes_lt_trans(a.drop_first(), b.drop_first(), c.drop_first());
    }
}

pub proof fn lemma_bytes_lt_irrefl(a: Seq<u8>)
    ensures
        !bytes_lt(a, a),
    decreases a.len(),
{
    if a.len() > 0 {
        lemma_bytes_lt_irrefl(a.drop_first());
    }
}

pub proof fn lemma_bytes_lt_total(a: Seq<u8>, b: Seq<u8>)
    ensures
        bytes_lt(a, b) || bytes_lt(b, a) || a == b,
    decreases a.len(),
{
    if a.len() > 0 && b.len() > 0 && a[0] == b[0] {
        lemma_bytes_lt_total(a.drop_first(), b.drop_first());
        if a.drop_first() == b.drop_first() {
            assert(a =~= seq![a[0]] + a.drop_first());
            assert(b =~= seq![b[0]] + b.drop_first());
        }
    } else if a.len() == 0 && b.len() == 0 {
        assert(a =~= b);
    }
}

/// Two strings are equal exactly when their encodings are.
pub proof fn lemma_encode_injective(a: Seq<char>, b: Seq<char>)
    ensures
        encode_utf8(a) == encode_utf8(b) ==> a == b,
{
    vstd::utf8::encode_utf8_decode_utf8(a);
    vstd::utf8::encode_utf8_decode_utf8(b);
}

/// How two string slices compare.
#[derive(Debug, Clone, Copy, PartialEq, Eq, Structural)]
pub enum StrOrder {
    Less,
    Equal,
    Greater,
}

/// Compares two string slices byte by byte, as `str`'s order does.
pub fn str_order(a: &str, b: &str) -> (r: StrOrder)
    ensures
        r == StrOrder::Less <==> str_lt(a@, b@),
        r == StrOrder::Greater <==> str_lt(b@, a@),
        r == StrOrder::Equal <==> a@ == b@,
{
    let x = a.as_bytes();
    let y = b.as_bytes();
    let ghost ex = encode_utf8(a@);
    let ghost ey = encode_utf8(b@);
    let mut i: usize = 0;
    assert(ex.skip(0) =~= ex);
    assert(ey.skip(0) =~= ey);
    while i < x.len() && i < y.len() && x[i] == y[i]
        invariant
            x@ == ex,
            y@ == ey,
            i <= x@.len(),
            i <= y@.len(),
            ex.subrange(0, i as int) == ey.subrange(0, i as int),
            bytes_lt(ex, ey) == bytes_lt(ex.skip(i as int), ey.skip(i as int)),
            bytes_lt(ey, ex) == bytes_lt(ey.skip(i as int), ex.skip(i as int)),
        decreases x.len() - i,
    {
        assert(ex.skip(i as int).drop_first() =~= ex.skip(i + 1));
        assert(ey.skip(i as int).drop_first() =~= ey.skip(i + 1));
        assert(ex.subrange(0, i + 1) =~= ex.subrange(0, i as int).push(ex[i as int]));
        assert(ey.subrange(0, i + 1) =~= ey.subrange(0, i as int).push(ey[i as int]));
        i += 1;
    }
    proof {
        lemma_encode_injective(a@, b@);
        lemma_bytes_lt_irrefl(ex);
    }
    if i < x.len() && i < y.len() {
        assert(ex != ey) by {
            assert(ex[i as int] != ey[i as int]);
        }
        if x[i] < y[i] {
            StrOrder::Less
        } else {
            StrOrder::Greater
        }
    } else if i < x.len() {
        assert(ex.len() != ey.len());
        StrOrder::Greater
    } else if i < y.len() {
        assert(ex.len() != ey.len());
        StrOrder::Less
    } else {
        assert(ex =~= ex.subrange(0, i as int));
        assert(ey =~= ey.subrange(0, i as int));
        StrOrder::Equal
    }
}

/// Appends `n` spaces.
pub fn push_spaces(s: &mut String, n: usize)
    ensures
        final(s)@ == old(s)@ + spaces(n as nat),
{
    let mut k: usize = 0;
    while k < n
        invariant
            k <= n,
            s@ == old(s)@ + spaces(k as nat),
        decreases n - k,
    {
        let ghost before = s@;
        s.append(" ");
        proof {
            reveal_strlit(" ");
        }
        k += 1;
        assert(s@ =~= old(s)@ + spaces(k as nat));
    }
}

/// Appends `parts` joined by `sep`.
pub fn push_joined(s: &mut String, parts: &[&str], sep: &str)
    ensures
        final(s)@ == old(s)@ + join(strs_view(parts@), sep@),
{
    let ghost v = strs_view(parts@);
    let mut k: usize = 0;
    while k < parts.len()
        invariant
            k <= parts@.len(),
            v == strs_view(parts@),
            s@ == old(s)@ + join(v.subrange(0, k as int), sep@),
        decreases parts.len() - k,
    {
        let ghost before = s@;
        if k > 0 {
            s.append(sep);
        }
        s.append(parts[k]);
        k += 1;
        proof {
            let w = v.subrange(0, k as int);
            assert(w.drop_last() =~= v.subrange(0, k - 1));
            if k == 1 {
                assert(join(v.subrange(0, 0), sep@) =~= Seq::<char>::empty());
                assert(s@ =~= old(s)@ + join(w, sep@));
            } else {
                assert(s@ =~= old(s)@ + join(w, sep@));
            }
        }
    }
    assert(v.subrange(0, parts@.len() as int) =~= v);
}

/// Appends one character, by `String::push`, which appends the given
/// character to the end of the string.
#[verifier::external_body]
pub(crate) fn push_char(s: &mut String, c: char)
    ensures
        final(s)@ == old(s)@.push(c),
{
    s.push(c);
}

} // verus!
