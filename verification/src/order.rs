//! Lexicographic byte order on strings, and sorted duplicate-free string
//! lists.

use vstd::prelude::*;
use vstd::utf8::{encode_utf8, decode_utf8, encode_utf8_decode_utf8};

verus! {

/// Lexicographic (byte-wise) strict order on byte strings.
pub open spec fn bytes_lt(a: Seq<u8>, b: Seq<u8>) -> bool
    decreases a.len(),
{
    if a.len() == 0 {
        b.len() > 0
    } else if b.len() == 0 {
        false
    } else if a[0] < b[0] {
        true
    } else if a[0] > b[0] {
        false
    } else {
        bytes_lt(a.drop_first(), b.drop_first())
    }
}

/// The order of `String`: byte-wise on the UTF-8 encoding.
pub open spec fn str_lt(a: Seq<char>, b: Seq<char>) -> bool {
    bytes_lt(encode_utf8(a), encode_utf8(b))
}

/// Strictly increasing in the string order (so free of duplicates).
pub open spec fn strictly_sorted(s: Seq<Seq<char>>) -> bool {
    forall|i: int, j: int| 0 <= i < j < s.len() ==> #[trigger] str_lt(s[i], s[j])
}

/// The views of a sequence of strings.
pub open spec fn views(v: Seq<String>) -> Seq<Seq<char>> {
    v.map_values(|s: String| s@)
}

/// The sorted, duplicate-free list with the same strings as `s`.
pub open spec fn sorted_unique(s: Seq<Seq<char>>) -> Seq<Seq<char>> {
    choose|r: Seq<Seq<char>>| strictly_sorted(r) && r.to_set() == s.to_set()
}

pub proof fn lemma_bytes_lt_irreflexive(a: Seq<u8>)
    ensures
        !bytes_lt(a, a),
    decreases a.len(),
{
    if a.len() > 0 {
        lemma_bytes_lt_irreflexive(a.drop_first());
    }
}

pub proof fn lemma_bytes_lt_asymmetric(a: Seq<u8>, b: Seq<u8>)
    requires
        bytes_lt(a, b),
    ensures
        !bytes_lt(b, a),
    decreases a.len(),
{
    if a.len() > 0 && b.len() > 0 && a[0] == b[0] {
        lemma_bytes_lt_asymmetric(a.drop_first(), b.drop_first());
    }
}

pub proof fn lemma_bytes_lt_transitive(a: Seq<u8>, b: Seq<u8>, c: Seq<u8>)
    requires
        bytes_lt(a, b),
        bytes_lt(b, c),
    ensures
        bytes_lt(a, c),
    decreases a.len(),
{
    if a.len() > 0 && b.len() > 0 && c.len() > 0 && a[0] == b[0] && b[0] == c[0] {
        lemma_bytes_lt_transitive(a.drop_first(), b.drop_first(), c.drop_first());
    }
}

pub proof fn lemma_bytes_lt_total(a: Seq<u8>, b: Seq<u8>)
    requires
        a != b,
    ensures
        bytes_lt(a, b) || bytes_lt(b, a),
    decreases a.len(),
{
    if a.len() == 0 && b.len() == 0 {
        assert(a =~= b);
    } else if a.len() > 0 && b.len() > 0 && a[0] == b[0] {
        if a.drop_first() == b.drop_first() {
            assert(a =~= seq![a[0]] + a.drop_first());
            assert(b =~= seq![b[0]] + b.drop_first());
        }
        lemma_bytes_lt_total(a.drop_first(), b.drop_first());
    }
}

pub proof fn lemma_str_lt_total(a: Seq<char>, b: Seq<char>)
    requires
        a != b,
    ensures
        str_lt(a, b) || str_lt(b, a),
{
    encode_utf8_decode_utf8(a);
    encode_utf8_decode_utf8(b);
    lemma_bytes_lt_total(encode_utf8(a), encode_utf8(b));
}

/// Two strictly sorted lists with the same elements are equal.
pub proof fn lemma_sorted_unique_equal(a: Seq<Seq<char>>, b: Seq<Seq<char>>)
    requires
        strictly_sorted(a),
        strictly_sorted(b),
        a.to_set() == b.to_set(),
    ensures
        a == b,
    decreases a.len(),
{
    if a.len() == 0 {
        if b.len() > 0 {
            assert(b.to_set().contains(b[0]));
            assert(!a.to_set().contains(b[0]));
        }
        assert(a =~= b);
    } else if b.len() == 0 {
        assert(a.to_set().contains(a[0]));
    } else {
        // The first elements are the least of the common set.
        assert(b.to_set().contains(a[0]));
        assert(a.to_set().contains(b[0]));
        if a[0] != b[0] {
            let j = choose|j: int| 0 <= j < b.len() && b[j] == a[0];
            let i = choose|i: int| 0 <= i < a.len() && a[i] == b[0];
            assert(j > 0);
            assert(i > 0);
            assert(str_lt(b[0], b[j]));
            assert(str_lt(a[0], a[i]));
            lemma_bytes_lt_asymmetric(encode_utf8(b[0]), encode_utf8(a[0]));
        }
        let ta = a.drop_first();
        let tb = b.drop_first();
        assert(strictly_sorted(ta));
        assert(strictly_sorted(tb));
        assert forall|x: Seq<char>| ta.to_set().contains(x) implies tb.to_set().contains(x) by {
            let i = choose|i: int| 0 <= i < ta.len() && ta[i] == x;
            assert(a.to_set().contains(x));
            let j = choose|j: int| 0 <= j < b.len() && b[j] == x;
            if j == 0 {
                assert(str_lt(a[0], a[i + 1]));
                lemma_bytes_lt_irreflexive(encode_utf8(x));
            }
            assert(tb[j - 1] == x);
        }
        assert forall|x: Seq<char>| tb.to_set().contains(x) implies ta.to_set().contains(x) by {
            let j = choose|j: int| 0 <= j < tb.len() && tb[j] == x;
            assert(b.to_set().contains(x));
            let i = choose|i: int| 0 <= i < a.len() && a[i] == x;
            if i == 0 {
                assert(str_lt(b[0], b[j + 1]));
                lemma_bytes_lt_irreflexive(encode_utf8(x));
            }
            assert(ta[i - 1] == x);
        }
        assert(ta.to_set() =~= tb.to_set());
        lemma_sorted_unique_equal(ta, tb);
        assert(a =~= seq![a[0]] + ta);
        assert(b =~= seq![b[0]] + tb);
    }
}

/// Byte-wise lexicographic comparison.
pub fn bytes_less(a: &[u8], b: &[u8]) -> (r: bool)
    ensures
        r == bytes_lt(a@, b@),
{
    let mut i: usize = 0;
    assert(a@.skip(0) =~= a@);
    assert(b@.skip(0) =~= b@);
    while i < a.len() && i < b.len()
        invariant
            i <= a@.len(),
            i <= b@.len(),
            bytes_lt(a@, b@) == bytes_lt(a@.skip(i as int), b@.skip(i as int)),
        decreases a@.len() - i,
    {
        if a[i] < b[i] {
            return true;
        }
        if a[i] > b[i] {
            return false;
        }
        assert(a@.skip(i as int).drop_first() =~= a@.skip(i + 1));
        assert(b@.skip(i as int).drop_first() =~= b@.skip(i + 1));
        i = i + 1;
    }
    i < b.len()
}

/// `a < b` in the order of `String`.
pub fn str_less(a: &String, b: &String) -> (r: bool)
    ensures
        r == str_lt(a@, b@),
{
    bytes_less(a.as_str().as_bytes(), b.as_str().as_bytes())
}

/// The sorted, duplicate-free list of the strings of `v`.
pub fn sort_unique(v: &Vec<String>) -> (r: Vec<String>)
    ensures
        strictly_sorted(views(r@)),
        views(r@).to_set() == views(v@).to_set(),
        views(r@) == sorted_unique(views(v@)),
{
    let mut r: Vec<String> = Vec::new();
    let mut i: usize = 0;
    assert(views(r@).to_set() =~= views(v@).take(0).to_set());
    while i < v.len()
        invariant
            i <= v@.len(),
            strictly_sorted(views(r@)),
            views(r@).to_set() == views(v@).take(i as int).to_set(),
        decreases v@.len() - i,
    {
        let x = &v[i];
        let ghost vr = views(r@);
        // Find the first position whose string is not below `x`.
        let mut p: usize = 0;
        while p < r.len() && str_less(&r[p], x)
            invariant
                p <= r@.len(),
                vr == views(r@),
                forall|j: int| 0 <= j < p ==> #[trigger] str_lt(vr[j], x@),
            decreases r@.len() - p,
        {
            p = p + 1;
        }
        let present = p < r.len() && r[p] == *x;
        if !present {
            proof {
                if p < vr.len() {
                    lemma_str_lt_total(vr[p as int], x@);
                }
            }
            let ghost old_r = r@;
            r.insert(p, x.clone());
            proof {
                let nv = views(r@);
                assert(nv =~= vr.insert(p as int, x@));
                assert forall|a: int, b: int| 0 <= a < b < nv.len() implies #[trigger] str_lt(nv[a], nv[b]) by {
                    if b < p {
                    } else if a == p {
                        if b > a + 1 {
                            assert(str_lt(vr[p as int], vr[b - 1]));
                            lemma_bytes_lt_transitive(encode_utf8(x@), encode_utf8(vr[p as int]), encode_utf8(vr[b - 1]));
                        }
                    } else if b == p {
                    } else if a < p {
                        assert(str_lt(vr[a], vr[b - 1]));
                    } else {
                        assert(str_lt(vr[a - 1], vr[b - 1]));
                    }
                }
            }
        }
        proof {
            let nv = views(r@);
            let tk = views(v@).take(i + 1);
            assert(tk =~= views(v@).take(i as int).push(x@));
            assert forall|y: Seq<char>| nv.to_set().contains(y) <==> tk.to_set().contains(y) by {
                if nv.to_set().contains(y) {
                    let j = choose|j: int| 0 <= j < nv.len() && nv[j] == y;
                    if y != x@ {
                        if present {
                            assert(vr.to_set().contains(y));
                        } else {
                            if j < p {
                                assert(vr[j] == y);
                            } else {
                                assert(vr[j - 1] == y);
                            }
                            assert(vr.to_set().contains(y));
                        }
                        assert(views(v@).take(i as int).to_set().contains(y));
                        let k = choose|k: int| 0 <= k < i && views(v@).take(i as int)[k] == y;
                        assert(tk[k] == y);
                    } else {
                        assert(tk[i as int] == y);
                    }
                }
                if tk.to_set().contains(y) {
                    let k = choose|k: int| 0 <= k < tk.len() && tk[k] == y;
                    if k < i {
                        assert(views(v@).take(i as int)[k] == y);
                        assert(vr.to_set().contains(y));
                        let j = choose|j: int| 0 <= j < vr.len() && vr[j] == y;
                        if present || j < p {
                            assert(nv[j] == y);
                        } else {
                            assert(nv[j + 1] == y);
                        }
                    } else {
                        if present {
                            assert(nv[p as int] == y);
                        } else {
                            assert(nv[p as int] == y);
                        }
                    }
                }
            }
            assert(nv.to_set() =~= tk.to_set());
        }
        i = i + 1;
    }
    assert(views(v@).take(v@.len() as int) =~= views(v@));
    proof {
        let rv = views(r@);
        let s = views(v@);
        assert(strictly_sorted(rv) && rv.to_set() == s.to_set());
        let c = sorted_unique(s);
        lemma_sorted_unique_equal(rv, c);
    }
    r
}

/// Equality of byte strings.
pub fn bytes_equal(a: &[u8], b: &[u8]) -> (r: bool)
    ensures
        r == (a@ == b@),
{
    if a.len() != b.len() {
        return false;
    }
    let mut i: usize = 0;
    while i < a.len()
        invariant
            a@.len() == b@.len(),
            i <= a@.len(),
            forall|k: int| 0 <= k < i ==> a@[k] == b@[k],
        decreases a@.len() - i,
    {
        if a[i] != b[i] {
            return false;
        }
        i = i + 1;
    }
    assert(a@ =~= b@);
    true
}

/// A copy of a list of strings.
pub fn copy_strings(v: &Vec<String>) -> (r: Vec<String>)
    ensures
        views(r@) == views(v@),
{
    let mut r: Vec<String> = Vec::new();
    let mut i: usize = 0;
    while i < v.len()
        invariant
            i <= v@.len(),
            views(r@) == views(v@).take(i as int),
        decreases v@.len() - i,
    {
        let c = v[i].clone();
        let ghost before = r@;
        r.push(c);
        proof {
            assert(r@ == before.push(v@[i as int]));
            assert(views(r@) =~= views(before).push(v@[i as int]@));
            assert(views(v@).take(i + 1) =~= views(v@).take(i as int).push(v@[i as int]@));
        }
        i = i + 1;
    }
    assert(views(v@).take(v@.len() as int) =~= views(v@));
    r
}

/// A copy of a byte string.
pub fn copy_bytes(b: &[u8]) -> (r: Vec<u8>)
    ensures
        r@ == b@,
{
    let mut r: Vec<u8> = Vec::new();
    crate::wire::put_bytes(&mut r, b);
    assert(r@ =~= b@);
    r
}

} // verus!
