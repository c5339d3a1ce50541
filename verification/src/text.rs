//! Text as sequences of characters: equality, order and search.

use vstd::prelude::*;

verus! {

/// The characters of `s`, one by one.
pub fn chars_of(s: &str) -> (r: Vec<char>)
    ensures
        r@ == s@,
{
    let n = s.unicode_len();
    let mut out: Vec<char> = Vec::new();
    let mut i: usize = 0;
    while i < n
        invariant
            i <= n,
            n == s@.len(),
            out@ == s@.subrange(0, i as int),
        decreases n - i,
    {
        out.push(s.get_char(i));
        i += 1;
    }
    out
}

/// Whether two texts hold the same characters.
pub fn same_text(a: &str, b: &str) -> (r: bool)
    ensures
        r == (a@ == b@),
{
    let x = chars_of(a);
    let y = chars_of(b);
    if x.len() != y.len() {
        return false;
    }
    let mut i: usize = 0;
    while i < x.len()
        invariant
            i <= x.len(),
            x.len() == y.len(),
            x@ == a@,
            y@ == b@,
            x@.subrange(0, i as int) == y@.subrange(0, i as int),
        decreases x.len() - i,
    {
        if x[i] != y[i] {
            return false;
        }
        assert(x@.subrange(0, i + 1) == x@.subrange(0, i as int).push(x@[i as int]));
        assert(y@.subrange(0, i + 1) == y@.subrange(0, i as int).push(y@[i as int]));
        i += 1;
    }
    assert(x@ == x@.subrange(0, x.len() as int));
    assert(y@ == y@.subrange(0, y.len() as int));
    true
}

/// `text` is one of `names`.
pub open spec fn listed(names: Seq<String>, text: Seq<char>) -> bool {
    exists|k: int| 0 <= k < names.len() && (#[trigger] names[k])@ == text
}

/// The texts that `names` lists.
pub open spec fn names_set(names: Seq<String>) -> Set<Seq<char>> {
    Set::new(|text: Seq<char>| listed(names, text))
}

/// Whether `text` is one of `names`.
pub fn is_listed(names: &Vec<String>, text: &str) -> (r: bool)
    ensures
        r == listed(names@, text@),
{
    let mut i: usize = 0;
    while i < names.len()
        invariant
            i <= names@.len(),
            forall|k: int| 0 <= k < i ==> (#[trigger] names@[k])@ != text@,
        decreases names@.len() - i,
    {
        if same_text(names[i].as_str(), text) {
            return true;
        }
        i += 1;
    }
    false
}

/// `a` comes before `b` in the order of a dictionary: at the first place
/// where they differ `a` has ended or holds the smaller character.
pub open spec fn precedes(a: Seq<char>, b: Seq<char>) -> bool {
    exists|k: int| #[trigger] splits_before(a, b, k)
}

/// `a` and `b` agree on their first `k` characters, and there `a` ends
/// before `b` does or holds the smaller character.
pub open spec fn splits_before(a: Seq<char>, b: Seq<char>, k: int) -> bool {
    &&& 0 <= k <= a.len()
    &&& k < b.len()
    &&& a.subrange(0, k) == b.subrange(0, k)
    &&& (k < a.len() ==> a[k] < b[k])
}

/// Whether `a` comes before `b`.
pub fn comes_before(a: &str, b: &str) -> (r: bool)
    ensures
        r == precedes(a@, b@),
{
    let x = chars_of(a);
    let y = chars_of(b);
    let mut i: usize = 0;
    while i < x.len() && i < y.len()
        invariant
            i <= x.len(),
            i <= y.len(),
            x@ == a@,
            y@ == b@,
            x@.subrange(0, i as int) == y@.subrange(0, i as int),
        decreases x.len() - i,
    {
        if x[i] != y[i] {
            let r = x[i] < y[i];
            proof {
                if r {
                    assert(splits_before(x@, y@, i as int));
                } else {
                    assert forall|k: int| !splits_before(x@, y@, k) by {
                        if splits_before(x@, y@, k) {
                            lemma_first_difference(x@, y@, i as int, k);
                        }
                    }
                }
            }
            return r;
        }
        assert(x@.subrange(0, i + 1) == x@.subrange(0, i as int).push(x@[i as int]));
        assert(y@.subrange(0, i + 1) == y@.subrange(0, i as int).push(y@[i as int]));
        i += 1;
    }
    let r = i < y.len();
    proof {
        if r {
            assert(splits_before(x@, y@, i as int));
        } else {
            assert forall|k: int| !splits_before(x@, y@, k) by {
                if splits_before(x@, y@, k) {
                    assert(x@.subrange(0, i as int)[k] == y@.subrange(0, i as int)[k]);
                }
            }
        }
    }
    r
}

/// Where two texts agree up to `i` and differ at `i`, no other place
/// splits them.
proof fn lemma_first_difference(a: Seq<char>, b: Seq<char>, i: int, k: int)
    requires
        0 <= i < a.len(),
        i < b.len(),
        a.subrange(0, i) == b.subrange(0, i),
        a[i] != b[i],
        splits_before(a, b, k),
    ensures
        k == i,
{
    if k < i {
        assert(a.subrange(0, i)[k] == a[k]);
        assert(b.subrange(0, i)[k] == b[k]);
    } else if k > i {
        assert(a.subrange(0, k)[i] == a[i]);
        assert(b.subrange(0, k)[i] == b[i]);
    }
}

/// No text comes before itself.
pub proof fn lemma_precedes_irreflexive(a: Seq<char>)
    ensures
        !precedes(a, a),
{
}

/// Of two different texts one comes before the other.
pub proof fn lemma_precedes_total(a: Seq<char>, b: Seq<char>)
    requires
        a != b,
    ensures
        precedes(a, b) || precedes(b, a),
{
    assert(a.subrange(0, 0) =~= b.subrange(0, 0));
    lemma_scan_for_split(a, b, 0);
}

proof fn lemma_scan_for_split(a: Seq<char>, b: Seq<char>, n: int)
    requires
        a != b,
        0 <= n <= a.len(),
        n <= b.len(),
        a.subrange(0, n) == b.subrange(0, n),
    ensures
        precedes(a, b) || precedes(b, a),
    decreases a.len() - n,
{
    if n == a.len() {
        if n == b.len() {
            assert(a =~= a.subrange(0, n));
            assert(b =~= b.subrange(0, n));
        }
        assert(splits_before(a, b, n));
    } else if n == b.len() {
        assert(splits_before(b, a, n));
    } else if a[n] != b[n] {
        if a[n] < b[n] {
            assert(splits_before(a, b, n));
        } else {
            assert(splits_before(b, a, n));
        }
    } else {
        assert(a.subrange(0, n + 1) =~= a.subrange(0, n).push(a[n]));
        assert(b.subrange(0, n + 1) =~= b.subrange(0, n).push(b[n]));
        lemma_scan_for_split(a, b, n + 1);
    }
}

/// The order passes along a chain.
pub proof fn lemma_precedes_transitive(a: Seq<char>, b: Seq<char>, c: Seq<char>)
    requires
        precedes(a, b),
        precedes(b, c),
    ensures
        precedes(a, c),
{
    let i = choose|k: int| splits_before(a, b, k);
    let j = choose|k: int| splits_before(b, c, k);
    let k = if i <= j { i } else { j };
    assert(a.subrange(0, k) =~= c.subrange(0, k)) by {
        assert forall|n: int| 0 <= n < k implies a[n] == c[n] by {
            assert(a.subrange(0, i)[n] == a[n]);
            assert(b.subrange(0, i)[n] == b[n]);
            assert(b.subrange(0, j)[n] == b[n]);
            assert(c.subrange(0, j)[n] == c[n]);
        }
    }
    if i < j {
        assert(b.subrange(0, j)[i] == b[i]);
        assert(c.subrange(0, j)[i] == c[i]);
    } else if j < i {
        assert(a.subrange(0, i)[j] == a[j]);
        assert(b.subrange(0, i)[j] == b[j]);
    }
    assert(splits_before(a, c, k));
}

} // verus!
