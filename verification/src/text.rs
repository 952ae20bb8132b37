use vstd::prelude::*;

verus! {

/// The code point of a character.
pub fn char_code(c: char) -> (x: u32)
    ensures
        x == c as u32,
{
    c as u32
}

/// Equal code points mean equal characters.
pub proof fn lemma_char_code_eq(c: char, d: char)
    requires
        (c as u32) == (d as u32),
    ensures
        c == d,
{
}

/// Code-point order agrees with the order used in specifications.
pub proof fn lemma_char_code_lt(c: char, d: char)
    requires
        (c as u32) < (d as u32),
    ensures
        (c as int) < (d as int),
{
}

/// Relies on String::push: appends one character.
#[verifier::external_body]
pub fn push_char(s: &mut String, c: char)
    ensures
        final(s)@ == old(s)@.push(c),
{
    s.push(c);
}

/// The position of the first separator, or the length when there is none.
pub open spec fn first_sep(s: Seq<char>, sep: char) -> int
    decreases s.len(),
{
    if s.len() == 0 {
        0
    } else if s[0] == sep {
        0
    } else {
        1 + first_sep(s.drop_first(), sep)
    }
}

/// The first separator lies within the string.
pub proof fn lemma_first_sep_bounds(s: Seq<char>, sep: char)
    ensures
        0 <= first_sep(s, sep) <= s.len(),
    decreases s.len(),
{
    if s.len() > 0 && s[0] != sep {
        lemma_first_sep_bounds(s.drop_first(), sep);
    }
}

/// Where no separator stands before `m` and one stands at `m` (or `m` is
/// the end), the first separator is at `m`.
pub proof fn lemma_first_sep_at(s: Seq<char>, sep: char, m: int)
    requires
        0 <= m <= s.len(),
        forall|x: int| 0 <= x < m ==> s[x] != sep,
        m < s.len() ==> s[m] == sep,
    ensures
        first_sep(s, sep) == m,
    decreases m,
{
    if m > 0 {
        assert(s[0] != sep);
        lemma_first_sep_at(s.drop_first(), sep, m - 1);
    }
}

#[via_fn]
proof fn split_on_decreases(s: Seq<char>, sep: char) {
    lemma_first_sep_bounds(s, sep);
}

/// The pieces of a string between its separators; an empty string is one
/// empty piece.
pub open spec fn split_on(s: Seq<char>, sep: char) -> Seq<Seq<char>>
    decreases s.len(),
    via split_on_decreases
{
    let k = first_sep(s, sep);
    if k == s.len() {
        seq![s]
    } else {
        seq![s.subrange(0, k)] + split_on(s.subrange(k + 1, s.len() as int), sep)
    }
}

/// Split a string on a separator character.
pub fn split_on_exec(s: &str, sep: char) -> (toks: Vec<String>)
    ensures
        toks@.map_values(|t: String| t@) == split_on(s@, sep),
{
    let cs = crate::ip_parse::chars_of(s);
    let n = cs.len();
    let mut toks: Vec<String> = Vec::new();
    let mut start: usize = 0;
    proof {
        assert(s@.subrange(0, n as int) =~= s@);
        assert(toks@.map_values(|t: String| t@) =~= Seq::<Seq<char>>::empty());
    }
    loop
        invariant
            start <= n,
            n == s@.len(),
            cs@ == s@,
            split_on(s@, sep) =~= toks@.map_values(|t: String| t@) + split_on(
                s@.subrange(start as int, n as int),
                sep,
            ),
        decreases n - start,
    {
        let ghost before = toks@.map_values(|t: String| t@);
        let ghost rest = s@.subrange(start as int, n as int);
        let mut j: usize = start;
        while j < n && cs[j] != sep
            invariant
                start <= j <= n,
                n == cs@.len(),
                cs@ == s@,
                forall|x: int| start <= x < j ==> s@[x] != sep,
            decreases n - j,
        {
            j = j + 1;
        }
        proof {
            lemma_first_sep_at(rest, sep, j - start);
            assert(rest.subrange(0, j - start) =~= s@.subrange(start as int, j as int));
        }
        let tok = s.substring_char(start, j).to_owned();
        toks.push(tok);
        proof {
            assert(toks@.map_values(|t: String| t@) =~= before.push(
                s@.subrange(start as int, j as int),
            ));
        }
        if j == n {
            proof {
                assert(split_on(rest, sep) =~= seq![rest]);
                assert(rest =~= s@.subrange(start as int, j as int));
                assert(split_on(s@, sep) =~= toks@.map_values(|t: String| t@));
            }
            return toks;
        }
        proof {
            assert(rest.subrange(j - start + 1, rest.len() as int) =~= s@.subrange(
                j + 1,
                n as int,
            ));
            assert(split_on(rest, sep) =~= seq![s@.subrange(start as int, j as int)] + split_on(
                s@.subrange(j + 1, n as int),
                sep,
            ));
        }
        start = j + 1;
    }
}

/// One string is a prefix of another.
pub open spec fn is_prefix(p: Seq<char>, s: Seq<char>) -> bool {
    p.len() <= s.len() && s.subrange(0, p.len() as int) == p
}

/// Whether the window cs[lo..hi] starts with the given pattern.
pub fn window_has_prefix(cs: &Vec<char>, lo: usize, hi: usize, pat: &Vec<char>) -> (b: bool)
    requires
        lo <= hi <= cs@.len(),
    ensures
        b == is_prefix(pat@, cs@.subrange(lo as int, hi as int)),
{
    let ghost w = cs@.subrange(lo as int, hi as int);
    if pat.len() > hi - lo {
        return false;
    }
    let mut i: usize = 0;
    while i < pat.len()
        invariant
            i <= pat@.len(),
            pat@.len() <= hi - lo,
            lo <= hi <= cs@.len(),
            w == cs@.subrange(lo as int, hi as int),
            forall|k: int| 0 <= k < i ==> cs@[lo + k] == pat@[k],
        decreases pat@.len() - i,
    {
        if cs[lo + i] != pat[i] {
            proof {
                assert(w[i as int] == cs@[lo + i]);
                assert(w.subrange(0, pat@.len() as int)[i as int] != pat@[i as int]);
            }
            return false;
        }
        i = i + 1;
    }
    proof {
        assert(w.subrange(0, pat@.len() as int) =~= pat@);
    }
    true
}

/// Strict lexicographic order on character sequences, by code point, a
/// proper prefix ordering first.
pub open spec fn lex_lt(a: Seq<char>, b: Seq<char>) -> bool
    decreases a.len(),
{
    if b.len() == 0 {
        false
    } else if a.len() == 0 {
        true
    } else if (a[0] as int) < (b[0] as int) {
        true
    } else if (a[0] as int) > (b[0] as int) {
        false
    } else {
        lex_lt(a.drop_first(), b.drop_first())
    }
}

/// A shared prefix does not change the order of what follows it.
pub proof fn lemma_lex_skip(a: Seq<char>, b: Seq<char>, i: int)
    requires
        0 <= i <= a.len(),
        i <= b.len(),
        forall|k: int| 0 <= k < i ==> a[k] == b[k],
    ensures
        lex_lt(a, b) == lex_lt(a.skip(i), b.skip(i)),
    decreases i,
{
    if i > 0 {
        assert(a[0] == b[0]);
        assert(lex_lt(a, b) == lex_lt(a.drop_first(), b.drop_first()));
        lemma_lex_skip(a.drop_first(), b.drop_first(), i - 1);
        assert(a.drop_first().skip(i - 1) =~= a.skip(i));
        assert(b.drop_first().skip(i - 1) =~= b.skip(i));
    } else {
        assert(a.skip(0) =~= a);
        assert(b.skip(0) =~= b);
    }
}

/// Nothing is lexicographically below itself.
pub proof fn lemma_lex_irrefl(a: Seq<char>)
    ensures
        !lex_lt(a, a),
    decreases a.len(),
{
    if a.len() > 0 {
        lemma_lex_irrefl(a.drop_first());
    }
}

/// Lexicographic order is transitive.
pub proof fn lemma_lex_trans(a: Seq<char>, b: Seq<char>, c: Seq<char>)
    requires
        lex_lt(a, b),
        lex_lt(b, c),
    ensures
        lex_lt(a, c),
    decreases a.len() + b.len() + c.len(),
{
    if a.len() == 0 {
        assert(b.len() > 0);
        assert(c.len() > 0);
    } else {
        assert(b.len() > 0);
        assert(c.len() > 0);
        if (a[0] as int) < (b[0] as int) {
            if (b[0] as int) <= (c[0] as int) {
            }
        } else {
            assert(a[0] == b[0]);
            if (b[0] as int) < (c[0] as int) {
            } else {
                assert(b[0] == c[0]);
                lemma_lex_trans(a.drop_first(), b.drop_first(), c.drop_first());
            }
        }
    }
}

/// Compare two strings in lexicographic order.
pub fn lex_lt_exec(a: &str, b: &str) -> (r: bool)
    ensures
        r == lex_lt(a@, b@),
{
    let ca = crate::ip_parse::chars_of(a);
    let cb = crate::ip_parse::chars_of(b);
    let mut i: usize = 0;
    while i < ca.len() && i < cb.len()
        invariant
            i <= ca@.len(),
            i <= cb@.len(),
            ca@ == a@,
            cb@ == b@,
            forall|k: int| 0 <= k < i ==> ca@[k] == cb@[k],
        decreases ca@.len() - i,
    {
        let x = char_code(ca[i]);
        let y = char_code(cb[i]);
        if x < y {
            proof {
                lemma_char_code_lt(ca@[i as int], cb@[i as int]);
                lemma_lex_skip(a@, b@, i as int);
                assert(a@.skip(i as int).len() == a@.len() - i);
                assert(b@.skip(i as int).len() == b@.len() - i);
                assert(a@.skip(i as int)[0] == a@[i as int]);
                assert(b@.skip(i as int)[0] == b@[i as int]);
                assert(lex_lt(a@.skip(i as int), b@.skip(i as int)));
            }
            return true;
        }
        if x > y {
            proof {
                lemma_char_code_lt(cb@[i as int], ca@[i as int]);
                lemma_lex_skip(a@, b@, i as int);
                assert(a@.skip(i as int).len() == a@.len() - i);
                assert(b@.skip(i as int).len() == b@.len() - i);
                assert(a@.skip(i as int)[0] == a@[i as int]);
                assert(b@.skip(i as int)[0] == b@[i as int]);
                assert(!lex_lt(a@.skip(i as int), b@.skip(i as int)));
            }
            return false;
        }
        proof {
            lemma_char_code_eq(ca@[i as int], cb@[i as int]);
        }
        i = i + 1;
    }
    proof {
        lemma_lex_skip(a@, b@, i as int);
        assert(a@.skip(i as int).len() == a@.len() - i);
        assert(b@.skip(i as int).len() == b@.len() - i);
        if i < b@.len() && i >= a@.len() {
            assert(lex_lt(a@.skip(i as int), b@.skip(i as int)));
        }
        if i >= b@.len() {
            assert(!lex_lt(a@.skip(i as int), b@.skip(i as int)));
        }
        if i < a@.len() && i < b@.len() {
            assert(a@.skip(i as int)[0] == a@[i as int]);
            assert(b@.skip(i as int)[0] == b@[i as int]);
        }
    }
    i >= ca.len() && i < cb.len()
}

} // verus!
