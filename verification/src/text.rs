//! Verified text utilities for paths and decimal rendering.
//!
//! Paths are plain strings; the library only ever joins path segments,
//! strips or appends a file extension, and takes the parent of a path, so
//! those few operations are implemented and specified here directly.

use vstd::prelude::*;
use vstd::string::StringExecFns;
use vstd::string::StrSliceExecFns;

verus! {

/// `i` is the position of the last occurrence of `c` in `s`.
pub open spec fn is_last_index_of(s: Seq<char>, c: char, i: int) -> bool {
    &&& 0 <= i < s.len()
    &&& s[i] == c
    &&& forall|j: int| i < j < s.len() ==> s[j] != c
}

/// `s` contains the character `c`.
pub open spec fn has_char(s: Seq<char>, c: char) -> bool {
    exists|j: int| 0 <= j < s.len() && s[j] == c
}

/// Position of the last occurrence of `c` in `s`, if any.
fn find_last(s: &str, c: char) -> (r: Option<usize>)
    ensures
        match r {
            Some(i) => is_last_index_of(s@, c, i as int),
            None => !has_char(s@, c),
        },
{
    let n = s.unicode_len();
    let mut i = n;
    while i > 0
        invariant
            i <= n,
            n == s@.len(),
            forall|j: int| i <= j < s@.len() ==> s@[j] != c,
        decreases i,
    {
        i = i - 1;
        if s.get_char(i) == c {
            return Some(i);
        }
    }
    None
}

/// The separator placed between joined path segments.
pub open spec fn spec_sep() -> char {
    '/'
}

/// The result of joining path segment `b` onto path `a`: a single
/// separator stands between them, supplied only when `a` does not already
/// end with one.
pub open spec fn spec_join(a: Seq<char>, b: Seq<char>) -> Seq<char> {
    if a.len() > 0 && a[a.len() - 1] == spec_sep() {
        a + b
    } else {
        a + seq![spec_sep()] + b
    }
}

/// Joins a path segment onto a base path with a single separator.  An
/// absolute second segment is not special-cased.
pub fn path_join(a: &str, b: &str) -> (r: String)
    ensures
        r@ == spec_join(a@, b@),
{
    let n = a.unicode_len();
    let mut r = String::from_str(a);
    if n == 0 || a.get_char(n - 1) != '/' {
        r.append("/");
    }
    r.append(b);
    proof {
        reveal_strlit("/");
        assert(r@ =~= spec_join(a@, b@));
    }
    r
}

/// A character has only one last position.
pub proof fn lemma_last_index_unique(s: Seq<char>, c: char, i1: int, i2: int)
    requires
        is_last_index_of(s, c, i1),
        is_last_index_of(s, c, i2),
    ensures
        i1 == i2,
{
    if i1 < i2 {
        assert(s[i2] != c);
    }
    if i2 < i1 {
        assert(s[i1] != c);
    }
}

/// The parent of a path: everything before the last separator, or the
/// empty sequence when there is no separator.
pub open spec fn spec_parent(s: Seq<char>) -> Seq<char> {
    if has_char(s, spec_sep()) {
        s.take(choose|i: int| is_last_index_of(s, spec_sep(), i))
    } else {
        Seq::<char>::empty()
    }
}

/// The parent of `p`: everything before the last separator, or the empty
/// string when `p` holds no separator.
pub fn path_parent(p: &str) -> (r: String)
    ensures
        r@ == spec_parent(p@),
        has_char(p@, spec_sep()) ==> {
            &&& is_last_index_of(p@, spec_sep(), r@.len() as int)
            &&& r@ == p@.take(r@.len() as int)
        },
        !has_char(p@, spec_sep()) ==> r@.len() == 0,
{
    match find_last(p, '/') {
        Some(i) => {
            let sub = p.substring_char(0, i);
            let r = String::from_str(sub);
            proof {
                assert(r@ =~= p@.take(i as int));
                assert(is_last_index_of(p@, spec_sep(), i as int));
                assert(exists|k: int| is_last_index_of(p@, spec_sep(), k));
                lemma_last_index_unique(
                    p@,
                    spec_sep(),
                    i as int,
                    choose|k: int| is_last_index_of(p@, spec_sep(), k),
                );
            }
            r
        },
        None => {
            proof {
                assert(Seq::<char>::empty() =~= spec_parent(p@));
            }
            String::new()
        },
    }
}

/// The file name of `s` starts an extension at position `d`: a dot after
/// the last separator, not the first character of the file name, not
/// preceded by another dot, and with no further dot or separator after it.
pub open spec fn has_extension_at(s: Seq<char>, d: int) -> bool {
    &&& 1 <= d < s.len()
    &&& s[d] == '.'
    &&& s[d - 1] != spec_sep()
    &&& s[d - 1] != '.'
    &&& forall|j: int| d < j < s.len() ==> (s[j] != '.' && s[j] != spec_sep())
}

/// `s` has a file extension somewhere.
pub open spec fn has_extension(s: Seq<char>) -> bool {
    exists|d: int| has_extension_at(s, d)
}

/// At most one position of a path can start its extension.
pub proof fn lemma_extension_at_unique(s: Seq<char>, d1: int, d2: int)
    requires
        has_extension_at(s, d1),
        has_extension_at(s, d2),
    ensures
        d1 == d2,
{
    if d1 < d2 {
        assert(s[d2] == '.');
        assert(s[d2] != '.' && s[d2] != spec_sep());
    }
    if d2 < d1 {
        assert(s[d1] == '.');
        assert(s[d1] != '.' && s[d1] != spec_sep());
    }
}

/// The stem of a path: the path without the extension of its file name.
pub open spec fn spec_stem(s: Seq<char>) -> Seq<char> {
    if has_extension(s) {
        s.take(choose|d: int| has_extension_at(s, d))
    } else {
        s
    }
}

/// Removes the extension of the file name of `p`, if it has one; the dot is
/// removed with it.  A path whose file name has no extension is returned
/// unchanged.
pub fn strip_extension(p: &str) -> (r: String)
    ensures
        r@ == spec_stem(p@),
        has_extension(p@) ==> {
            &&& has_extension_at(p@, r@.len() as int)
            &&& r@ == p@.take(r@.len() as int)
        },
        !has_extension(p@) ==> r@ == p@,
{
    match find_last(p, '.') {
        None => {
            proof {
                if has_extension(p@) {
                    let e = choose|e: int| has_extension_at(p@, e);
                    assert(p@[e] == '.');
                    assert(false);
                }
            }
            String::from_str(p)
        },
        Some(d) => {
            if d >= 1 {
                let c1 = p.get_char(d - 1);
                if c1 != '/' && c1 != '.' {
                    let slash = find_last(p, '/');
                    let no_slash_after: bool = match slash {
                        None => true,
                        Some(k) => k < d,
                    };
                    if no_slash_after {
                        let sub = p.substring_char(0, d);
                        let r = String::from_str(sub);
                        proof {
                            assert(has_extension_at(p@, d as int));
                            assert(r@ =~= p@.take(d as int));
                            lemma_extension_at_unique(
                                p@,
                                d as int,
                                choose|e: int| has_extension_at(p@, e),
                            );
                        }
                        return r;
                    }
                    // The last separator sits at or after the last dot, so
                    // the dot is not part of the file name.
                    proof {
                        if has_extension(p@) {
                            let e = choose|e: int| has_extension_at(p@, e);
                            lemma_last_dot(p@, e, d as int);
                            match slash {
                                Some(ks) => {
                                    assert(p@[ks as int] == spec_sep());
                                    assert(ks as int != d as int);
                                    assert(p@[ks as int] != spec_sep());
                                },
                                None => {},
                            }
                            assert(false);
                        }
                    }
                    return String::from_str(p);
                }
                // The character before the last dot is a separator or a
                // dot, so the file name has no extension.
                proof {
                    if has_extension(p@) {
                        let e = choose|e: int| has_extension_at(p@, e);
                        lemma_last_dot(p@, e, d as int);
                        assert(false);
                    }
                }
                return String::from_str(p);
            }
            // The last dot is the first character of the path.
            proof {
                if has_extension(p@) {
                    let e = choose|e: int| has_extension_at(p@, e);
                    lemma_last_dot(p@, e, d as int);
                    assert(false);
                }
            }
            String::from_str(p)
        },
    }
}

/// An extension dot can only stand at the last dot of the path.
proof fn lemma_last_dot(s: Seq<char>, e: int, d: int)
    requires
        has_extension_at(s, e),
        is_last_index_of(s, '.', d),
    ensures
        e == d,
{
    assert(s[e] == '.');
    if e > d {
        assert(s[e] != '.');
    }
    if e < d {
        assert(s[d] == '.');
        assert(s[d] != '.' && s[d] != spec_sep());
    }
}

/// The decimal digit character for `d`.
pub open spec fn spec_digit(d: int) -> char {
    if d == 0 {
        '0'
    } else if d == 1 {
        '1'
    } else if d == 2 {
        '2'
    } else if d == 3 {
        '3'
    } else if d == 4 {
        '4'
    } else if d == 5 {
        '5'
    } else if d == 6 {
        '6'
    } else if d == 7 {
        '7'
    } else if d == 8 {
        '8'
    } else {
        '9'
    }
}

/// The decimal rendering of a non-negative integer, without leading zeros
/// (except for the number zero itself).
pub open spec fn spec_dec(n: int) -> Seq<char>
    decreases n,
{
    if n < 10 {
        seq![spec_digit(n)]
    } else {
        spec_dec(n / 10).push(spec_digit(n % 10))
    }
}

/// Appends the digit character for `d` to `s`.
fn append_digit(s: &mut String, d: u64)
    requires
        d < 10,
    ensures
        final(s)@ == old(s)@ + seq![spec_digit(d as int)],
{
    proof {
        reveal_strlit("0");
        reveal_strlit("1");
        reveal_strlit("2");
        reveal_strlit("3");
        reveal_strlit("4");
        reveal_strlit("5");
        reveal_strlit("6");
        reveal_strlit("7");
        reveal_strlit("8");
        reveal_strlit("9");
    }
    if d == 0 {
        s.append("0");
    } else if d == 1 {
        s.append("1");
    } else if d == 2 {
        s.append("2");
    } else if d == 3 {
        s.append("3");
    } else if d == 4 {
        s.append("4");
    } else if d == 5 {
        s.append("5");
    } else if d == 6 {
        s.append("6");
    } else if d == 7 {
        s.append("7");
    } else if d == 8 {
        s.append("8");
    } else {
        s.append("9");
    }
    proof {
        assert(final(s)@ =~= old(s)@ + seq![spec_digit(d as int)]);
    }
}

/// Appends the decimal rendering of `n` to `s`.
pub fn append_u64_dec(s: &mut String, n: u64)
    ensures
        final(s)@ == old(s)@ + spec_dec(n as int),
    decreases n,
{
    if n < 10 {
        append_digit(s, n);
    } else {
        let q = n / 10;
        let d = n % 10;
        proof {
            assert(q < n) by (nonlinear_arith)
                requires
                    n >= 10,
                    q == n / 10,
            ;
        }
        append_u64_dec(s, q);
        append_digit(s, d);
        proof {
            assert(old(s)@ + spec_dec(q as int) + seq![spec_digit(d as int)] =~= old(s)@
                + spec_dec(n as int));
        }
    }
}

/// The decimal rendering of `n` as a fresh string.
pub fn u64_to_dec(n: u64) -> (r: String)
    ensures
        r@ == spec_dec(n as int),
{
    let mut r = String::new();
    append_u64_dec(&mut r, n);
    proof {
        assert(r@ =~= spec_dec(n as int));
    }
    r
}

} // verus!
