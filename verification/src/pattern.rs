//! Asset names with a place for the version: in a pattern `{version}`
//! stands wherever the version of the release is written.

use vstd::prelude::*;
use crate::text::{chars_of, same_text};

verus! {

/// The place for the version, as it is written in a pattern.
pub open spec fn hole() -> Seq<char> {
    "{version}"@
}

/// The pattern begins with the place for the version.
pub open spec fn at_hole(pattern: Seq<char>) -> bool {
    pattern.len() >= 9 && pattern.subrange(0, 9) == hole()
}

/// The pattern with `version` in every place for it.
pub open spec fn substitute(pattern: Seq<char>, version: Seq<char>) -> Seq<char>
    decreases pattern.len(),
{
    if pattern.len() == 0 {
        Seq::empty()
    } else if at_hole(pattern) {
        version + substitute(pattern.skip(9), version)
    } else {
        seq![pattern[0]] + substitute(pattern.skip(1), version)
    }
}

/// `name` is the pattern with some version in every place for it, the
/// same version in each.
pub open spec fn fits(pattern: Seq<char>, name: Seq<char>) -> bool {
    exists|version: Seq<char>| #[trigger] substitute(pattern, version) == name
}

/// How many places for the version a pattern has.
pub open spec fn holes(pattern: Seq<char>) -> nat
    decreases pattern.len(),
{
    if pattern.len() == 0 {
        0
    } else if at_hole(pattern) {
        1 + holes(pattern.skip(9))
    } else {
        holes(pattern.skip(1))
    }
}

/// How many characters of a pattern stand for themselves.
pub open spec fn literals(pattern: Seq<char>) -> nat
    decreases pattern.len(),
{
    if pattern.len() == 0 {
        0
    } else if at_hole(pattern) {
        literals(pattern.skip(9))
    } else {
        1 + literals(pattern.skip(1))
    }
}

/// How many characters stand before the first place for the version.
pub open spec fn lead(pattern: Seq<char>) -> nat
    decreases pattern.len(),
{
    if pattern.len() == 0 || at_hole(pattern) {
        0
    } else {
        1 + lead(pattern.skip(1))
    }
}

proof fn lemma_hole()
    ensures
        hole() == seq!['{', 'v', 'e', 'r', 's', 'i', 'o', 'n', '}'],
        hole().len() == 9,
{
    reveal_strlit("{version}");
    assert(hole() =~= seq!['{', 'v', 'e', 'r', 's', 'i', 'o', 'n', '}']);
}

/// A filled pattern is as long as its own characters and the versions
/// in it together.
pub proof fn lemma_substitute_len(pattern: Seq<char>, version: Seq<char>)
    ensures
        substitute(pattern, version).len() == literals(pattern) + holes(pattern) * version.len(),
        lead(pattern) <= literals(pattern),
    decreases pattern.len(),
{
    if pattern.len() == 0 {
        assert(holes(pattern) * version.len() == 0) by (nonlinear_arith)
            requires
                holes(pattern) == 0,
        ;
    } else if at_hole(pattern) {
        let rest = pattern.skip(9);
        lemma_substitute_len(rest, version);
        assert((1 + holes(rest)) * version.len() == version.len() + holes(rest) * version.len())
            by (nonlinear_arith);
    } else {
        lemma_substitute_len(pattern.skip(1), version);
    }
}

/// A pattern without a place for the version is filled by itself.
pub proof fn lemma_substitute_plain(pattern: Seq<char>, version: Seq<char>)
    requires
        holes(pattern) == 0,
    ensures
        substitute(pattern, version) == pattern,
    decreases pattern.len(),
{
    if pattern.len() > 0 {
        lemma_substitute_plain(pattern.skip(1), version);
        assert(seq![pattern[0]] + pattern.skip(1) =~= pattern);
    }
}

/// In a filled pattern the version stands where the first place for it
/// was.
pub proof fn lemma_version_at_lead(pattern: Seq<char>, version: Seq<char>)
    requires
        holes(pattern) > 0,
    ensures
        lead(pattern) + version.len() <= substitute(pattern, version).len(),
        substitute(pattern, version).subrange(
            lead(pattern) as int,
            (lead(pattern) + version.len()) as int,
        ) == version,
    decreases pattern.len(),
{
    let filled = substitute(pattern, version);
    if at_hole(pattern) {
        assert(filled.subrange(0, version.len() as int) =~= version);
    } else {
        let rest = pattern.skip(1);
        lemma_version_at_lead(rest, version);
        let inner = substitute(rest, version);
        assert(filled.subrange(lead(pattern) as int, (lead(pattern) + version.len()) as int)
            =~= inner.subrange(lead(rest) as int, (lead(rest) + version.len()) as int));
    }
}

fn hole_at(chars: &Vec<char>, i: usize) -> (r: bool)
    requires
        i <= chars@.len(),
    ensures
        r == at_hole(chars@.skip(i as int)),
{
    proof {
        lemma_hole();
    }
    let n = chars.len();
    if n - i < 9 {
        return false;
    }
    let r = chars[i] == '{' && chars[i + 1] == 'v' && chars[i + 2] == 'e' && chars[i + 3] == 'r'
        && chars[i + 4] == 's' && chars[i + 5] == 'i' && chars[i + 6] == 'o' && chars[i + 7] == 'n'
        && chars[i + 8] == '}';
    proof {
        let head = chars@.skip(i as int).subrange(0, 9);
        if r {
            assert(head =~= hole());
        } else {
            if head == hole() {
                assert(head[0] == '{' && head[1] == 'v' && head[2] == 'e' && head[3] == 'r'
                    && head[4] == 's' && head[5] == 'i' && head[6] == 'o' && head[7] == 'n'
                    && head[8] == '}');
            }
        }
    }
    r
}

/// The pattern with `version` in every place for it.
pub fn fill(pattern: &str, version: &str) -> (r: String)
    ensures
        r@ == substitute(pattern@, version@),
{
    let chars = chars_of(pattern);
    let n = chars.len();
    let mut out = String::new();
    let mut i: usize = 0;
    proof {
        assert(pattern@.skip(0) =~= pattern@);
        assert(out@ + substitute(pattern@, version@) =~= substitute(pattern@, version@));
    }
    while i < n
        invariant
            i <= n,
            n == chars@.len(),
            chars@ == pattern@,
            out@ + substitute(pattern@.skip(i as int), version@) == substitute(
                pattern@,
                version@,
            ),
        decreases n - i,
    {
        let ghost here = pattern@.skip(i as int);
        let ghost before = out@;
        if hole_at(&chars, i) {
            out.append(version);
            proof {
                assert(here.skip(9) =~= pattern@.skip(i + 9));
                assert(out@ + substitute(here.skip(9), version@) =~= before + substitute(
                    here,
                    version@,
                ));
            }
            i += 9;
        } else {
            out.append(pattern.substring_char(i, i + 1));
            proof {
                assert(here.skip(1) =~= pattern@.skip(i + 1));
                assert(pattern@.subrange(i as int, i + 1) =~= seq![here[0]]);
                assert(out@ + substitute(here.skip(1), version@) =~= before + substitute(
                    here,
                    version@,
                ));
            }
            i += 1;
        }
    }
    proof {
        assert(pattern@.skip(n as int) =~= Seq::<char>::empty());
        assert(out@ + Seq::<char>::empty() =~= out@);
    }
    out
}

/// The places for the version, the characters that stand for
/// themselves, and the characters before the first place, counted.
fn measure(chars: &Vec<char>) -> (r: (usize, usize, usize))
    ensures
        r.0 == holes(chars@),
        r.1 == literals(chars@),
        r.2 == lead(chars@),
{
    let n = chars.len();
    let mut count: usize = 0;
    let mut own: usize = 0;
    let mut before: usize = 0;
    let mut i: usize = 0;
    proof {
        assert(chars@.skip(0) =~= chars@);
    }
    while i < n
        invariant
            i <= n,
            n == chars@.len(),
            count * 9 + own == i,
            holes(chars@) == count + holes(chars@.skip(i as int)),
            literals(chars@) == own + literals(chars@.skip(i as int)),
            count == 0 ==> lead(chars@) == before + lead(chars@.skip(i as int)),
            count == 0 ==> before == own,
            count > 0 ==> lead(chars@) == before,
        decreases n - i,
    {
        let ghost here = chars@.skip(i as int);
        if hole_at(chars, i) {
            proof {
                assert(here.skip(9) =~= chars@.skip(i + 9));
            }
            count += 1;
            i += 9;
        } else {
            proof {
                assert(here.skip(1) =~= chars@.skip(i + 1));
            }
            if count == 0 {
                before += 1;
            }
            own += 1;
            i += 1;
        }
    }
    proof {
        assert(chars@.skip(n as int) =~= Seq::<char>::empty());
    }
    (count, own, before)
}

/// Whether `name` is the pattern with some version in every place for
/// it.
pub fn pattern_fits(pattern: &str, name: &str) -> (r: bool)
    ensures
        r == fits(pattern@, name@),
{
    let chars = chars_of(pattern);
    let (count, own, before) = measure(&chars);
    if count == 0 {
        let r = same_text(pattern, name);
        proof {
            if r {
                lemma_substitute_plain(pattern@, Seq::empty());
                assert(substitute(pattern@, Seq::empty()) == name@);
            }
            if fits(pattern@, name@) {
                let version = choose|version: Seq<char>|
                    #[trigger] substitute(pattern@, version) == name@;
                lemma_substitute_plain(pattern@, version);
            }
        }
        return r;
    }
    let length = name.unicode_len();
    proof {
        if fits(pattern@, name@) {
            let version = choose|version: Seq<char>|
                #[trigger] substitute(pattern@, version) == name@;
            lemma_substitute_len(pattern@, version);
            lemma_version_at_lead(pattern@, version);
            let room = length - own;
            assert(room >= 0 && room % (count as int) == 0 && room / (count as int)
                == version.len()) by (nonlinear_arith)
                requires
                    room == count * version.len(),
                    count > 0,
                    version.len() >= 0,
            ;
        }
        lemma_substitute_len(pattern@, Seq::empty());
    }
    if length < own {
        return false;
    }
    let room = length - own;
    if room % count != 0 {
        return false;
    }
    let width = room / count;
    proof {
        assert(before + width <= length) by (nonlinear_arith)
            requires
                before <= own,
                own + room == length,
                width as int == (room as int) / (count as int),
                count > 0,
                room >= 0,
        ;
    }
    let version = name.substring_char(before, before + width);
    let filled = fill(pattern, version);
    let r = same_text(filled.as_str(), name);
    proof {
        if r {
            assert(substitute(pattern@, version@) == name@);
        }
    }
    r
}

} // verus!
