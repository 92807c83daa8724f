//! Free-text search patterns: wildcard escaping and LIKE matching.
//!
//! The free-text criterion becomes one bound parameter of the shape
//! `%<escaped>%`, where `%`, `_` and `\` in the user's text are escaped
//! with `\` so the store treats them literally. `like_matches` is this
//! library's statement of what such a pattern means: the semantics of a
//! LIKE predicate with `\` as the escape character, matching characters
//! exactly.

use vstd::prelude::*;

verus! {

/// Characters that LIKE treats specially, plus the escape character itself.
pub open spec fn is_wildcard(c: char) -> bool {
    c == '%' || c == '_' || c == '\\'
}

/// `s` with every wildcard character preceded by the escape character.
pub open spec fn escape_like(s: Seq<char>) -> Seq<char>
    decreases s.len(),
{
    if s.len() == 0 {
        Seq::<char>::empty()
    } else {
        (if is_wildcard(s[0]) {
            seq!['\\', s[0]]
        } else {
            seq![s[0]]
        }) + escape_like(s.skip(1))
    }
}

/// The bound value for a free-text search over `s`: `%<escaped s>%`.
pub open spec fn wrap_like(s: Seq<char>) -> Seq<char> {
    seq!['%'] + escape_like(s) + seq!['%']
}

/// Semantics of a LIKE pattern with `\` as escape character: `%` matches
/// any stretch of text, `_` any one character, `\c` and every other
/// character match that character exactly.
pub open spec fn like_matches(p: Seq<char>, t: Seq<char>) -> bool
    decreases p.len() + t.len(),
{
    if p.len() == 0 {
        t.len() == 0
    } else if p[0] == '\\' {
        p.len() >= 2 && t.len() > 0 && t[0] == p[1] && like_matches(p.skip(2), t.skip(1))
    } else if p[0] == '%' {
        like_matches(p.skip(1), t) || (t.len() > 0 && like_matches(p, t.skip(1)))
    } else if p[0] == '_' {
        t.len() > 0 && like_matches(p.skip(1), t.skip(1))
    } else {
        t.len() > 0 && t[0] == p[0] && like_matches(p.skip(1), t.skip(1))
    }
}

/// `t` holds `s` as a contiguous run.
pub open spec fn contains_seq(t: Seq<char>, s: Seq<char>) -> bool {
    exists|i: int| 0 <= i && i + s.len() <= t.len() && #[trigger] t.subrange(i, i + s.len()) == s
}

pub proof fn lemma_escape_like_concat(a: Seq<char>, b: Seq<char>)
    ensures
        escape_like(a + b) == escape_like(a) + escape_like(b),
    decreases a.len(),
{
    if a.len() == 0 {
        assert(a + b =~= b);
        assert(escape_like(a) + escape_like(b) =~= escape_like(b));
    } else {
        assert((a + b).skip(1) =~= a.skip(1) + b);
        lemma_escape_like_concat(a.skip(1), b);
        assert(escape_like(a + b) =~= escape_like(a) + escape_like(b));
    }
}

proof fn lemma_eq_from_head_tail(t: Seq<char>, s: Seq<char>)
    requires
        t.len() > 0,
        s.len() > 0,
        t[0] == s[0],
        t.skip(1) == s.skip(1),
    ensures
        t == s,
{
    assert(t =~= seq![t[0]] + t.skip(1));
    assert(s =~= seq![s[0]] + s.skip(1));
    assert(t == s);
}

/// A lone `%` matches any text.
proof fn lemma_like_percent_any(t: Seq<char>)
    ensures
        like_matches(seq!['%'], t),
    decreases t.len(),
{
    let p = seq!['%'];
    assert(p[0] == '%');
    assert(p.skip(1) =~= Seq::<char>::empty());
    if t.len() == 0 {
        assert(like_matches(p.skip(1), t));
    } else {
        lemma_like_percent_any(t.skip(1));
    }
}

/// An escaped text, used as a whole pattern, matches exactly that text:
/// escaping leaves no live wildcard.
proof fn lemma_escape_exact(s: Seq<char>, t: Seq<char>)
    ensures
        like_matches(escape_like(s), t) <==> t == s,
    decreases s.len(),
{
    let e = escape_like(s);
    if s.len() == 0 {
        assert(e =~= Seq::<char>::empty());
        if t.len() == 0 {
            assert(t =~= s);
        }
    } else {
        let c = s[0];
        let rest = escape_like(s.skip(1));
        if is_wildcard(c) {
            assert(e =~= seq!['\\', c] + rest);
            assert(e[0] == '\\' && e.len() >= 2 && e[1] == c);
            assert(e.skip(2) =~= rest);
            if t.len() > 0 {
                lemma_escape_exact(s.skip(1), t.skip(1));
                if like_matches(e, t) {
                    assert(t[0] == s[0] && t.skip(1) == s.skip(1));
                    lemma_eq_from_head_tail(t, s);
                }
                if t == s {
                    assert(t.skip(1) =~= s.skip(1));
                    assert(like_matches(e, t));
                }
            } else {
                assert(!like_matches(e, t));
            }
        } else {
            assert(e =~= seq![c] + rest);
            assert(e[0] == c && c != '\\' && c != '%' && c != '_');
            assert(e.skip(1) =~= rest);
            if t.len() > 0 {
                lemma_escape_exact(s.skip(1), t.skip(1));
                if like_matches(e, t) {
                    assert(t[0] == s[0] && t.skip(1) == s.skip(1));
                    lemma_eq_from_head_tail(t, s);
                }
                if t == s {
                    assert(t.skip(1) =~= s.skip(1));
                    assert(like_matches(e, t));
                }
            } else {
                assert(!like_matches(e, t));
            }
        }
    }
}

/// An escaped text followed by `%` matches exactly the texts that start
/// with that text.
proof fn lemma_escape_prefix(s: Seq<char>, u: Seq<char>)
    ensures
        like_matches(escape_like(s) + seq!['%'], u) <==> (u.len() >= s.len() && u.take(
            s.len() as int,
        ) == s),
    decreases s.len(),
{
    let q = escape_like(s) + seq!['%'];
    if s.len() == 0 {
        assert(q =~= seq!['%']);
        lemma_like_percent_any(u);
        assert(u.take(0) =~= s);
    } else {
        let c = s[0];
        let rest = escape_like(s.skip(1));
        if is_wildcard(c) {
            assert(escape_like(s) =~= seq!['\\', c] + rest);
            assert(q[0] == '\\' && q.len() >= 2 && q[1] == c);
            assert(q.skip(2) =~= rest + seq!['%']);
        } else {
            assert(escape_like(s) =~= seq![c] + rest);
            assert(q[0] == c && c != '\\' && c != '%' && c != '_');
            assert(q.skip(1) =~= rest + seq!['%']);
        }
        if u.len() > 0 {
            lemma_escape_prefix(s.skip(1), u.skip(1));
            if like_matches(q, u) {
                assert(u[0] == c);
                assert(u.skip(1).len() >= s.len() - 1);
                assert(u.skip(1).take(s.len() - 1) == s.skip(1));
                assert(u.take(s.len() as int) =~= s) by {
                    assert(forall|i: int|
                        1 <= i < s.len() ==> #[trigger] u.take(s.len() as int)[i] == u.skip(
                            1,
                        ).take(s.len() - 1)[i - 1]);
                }
            }
            if u.len() >= s.len() && u.take(s.len() as int) == s {
                assert(u[0] == u.take(s.len() as int)[0]);
                assert(u[0] == c);
                assert(u.skip(1).take(s.len() - 1) =~= s.skip(1)) by {
                    assert(forall|i: int|
                        0 <= i < s.len() - 1 ==> #[trigger] u.skip(1).take(s.len() - 1)[i]
                            == u.take(s.len() as int)[i + 1]);
                }
                assert(like_matches(q, u));
            }
        } else {
            assert(!like_matches(q, u));
            assert(!(u.len() >= s.len()));
        }
    }
}

/// A pattern led by `%` matches `t` exactly when its tail matches some
/// suffix of `t`.
proof fn lemma_leading_percent(p: Seq<char>, t: Seq<char>)
    ensures
        like_matches(seq!['%'] + p, t) <==> exists|k: int|
            0 <= k <= t.len() && like_matches(p, #[trigger] t.skip(k)),
    decreases t.len(),
{
    let q = seq!['%'] + p;
    assert(q[0] == '%');
    assert(q.skip(1) =~= p);
    assert(t.skip(0) =~= t);
    if t.len() == 0 {
        if like_matches(q, t) {
            assert(like_matches(p, t.skip(0)));
        }
        if exists|k: int| 0 <= k <= t.len() && like_matches(p, #[trigger] t.skip(k)) {
            let k = choose|k: int| 0 <= k <= t.len() && like_matches(p, #[trigger] t.skip(k));
            assert(k == 0);
            assert(like_matches(q, t));
        }
    } else {
        lemma_leading_percent(p, t.skip(1));
        if like_matches(q, t) {
            if like_matches(p, t) {
                assert(like_matches(p, t.skip(0)));
            } else {
                assert(like_matches(q, t.skip(1)));
                let k = choose|k: int|
                    0 <= k <= t.skip(1).len() && like_matches(p, #[trigger] t.skip(1).skip(k));
                assert(t.skip(1).skip(k) =~= t.skip(k + 1));
                assert(like_matches(p, t.skip(k + 1)));
            }
        }
        if exists|k: int| 0 <= k <= t.len() && like_matches(p, #[trigger] t.skip(k)) {
            let k = choose|k: int| 0 <= k <= t.len() && like_matches(p, #[trigger] t.skip(k));
            if k == 0 {
                assert(like_matches(p, t));
                assert(like_matches(q, t));
            } else {
                assert(t.skip(1).skip(k - 1) =~= t.skip(k));
                assert(like_matches(p, t.skip(1).skip(k - 1)));
                assert(like_matches(q, t.skip(1)));
                assert(like_matches(q, t));
            }
        }
    }
}

/// The free-text search pattern built from `s` matches exactly the texts
/// that hold `s` literally as a contiguous run: every wildcard character
/// in `s` has been made literal by the escaping, and the two outer `%`
/// mean "anywhere". In particular, a search for text with `%` or `_`
/// matches those characters themselves, not arbitrary text.
pub proof fn lemma_like_pattern_literal(s: Seq<char>, t: Seq<char>)
    ensures
        like_matches(wrap_like(s), t) <==> contains_seq(t, s),
{
    let mid = escape_like(s) + seq!['%'];
    assert(wrap_like(s) =~= seq!['%'] + mid);
    lemma_leading_percent(mid, t);
    assert forall|k: int| 0 <= k <= t.len() implies (like_matches(mid, #[trigger] t.skip(k))
        <==> (t.skip(k).len() >= s.len() && t.skip(k).take(s.len() as int) == s)) by {
        lemma_escape_prefix(s, t.skip(k));
    }
    if like_matches(wrap_like(s), t) {
        let k = choose|k: int| 0 <= k <= t.len() && like_matches(mid, #[trigger] t.skip(k));
        assert(t.skip(k).take(s.len() as int) =~= t.subrange(k, k + s.len()));
        assert(t.subrange(k, k + s.len()) == s);
        assert(contains_seq(t, s));
    }
    if contains_seq(t, s) {
        let i = choose|i: int|
            0 <= i && i + s.len() <= t.len() && #[trigger] t.subrange(i, i + s.len()) == s;
        assert(t.skip(i).take(s.len() as int) =~= t.subrange(i, i + s.len()));
        assert(like_matches(mid, t.skip(i)));
        assert(like_matches(wrap_like(s), t));
    }
}

/// Collect the characters of a string.
pub fn str_chars(s: &str) -> (v: Vec<char>)
    ensures
        v@ == s@,
{
    let mut v: Vec<char> = Vec::new();
    for c in it: s.chars()
        invariant
            it.seq() == s@,
            v@ == it.seq().take(it.index()),
    {
        v.push(c);
    }
    assert(v@ =~= s@);
    v
}

/// Relies on `String`'s `FromIterator<&char>`: collecting the characters
/// of `v` yields the string of exactly those characters, in order.
#[verifier::external_body]
fn chars_to_string(v: &Vec<char>) -> (s: String)
    ensures
        s@ == v@,
{
    v.iter().collect()
}

/// The bound search value for the free text in `chars`.
pub fn like_pattern_chars(chars: &Vec<char>) -> (r: String)
    ensures
        r@ == wrap_like(chars@),
{
    let mut out: Vec<char> = Vec::new();
    out.push('%');
    let mut i: usize = 0;
    while i < chars.len()
        invariant
            0 <= i <= chars.len(),
            out@ == seq!['%'] + escape_like(chars@.take(i as int)),
        decreases chars.len() - i,
    {
        let c = chars[i];
        if c == '%' || c == '_' || c == '\\' {
            out.push('\\');
            out.push(c);
        } else {
            out.push(c);
        }
        proof {
            let g = chars@[i as int];
            reveal_with_fuel(escape_like, 2);
            assert(seq![g].skip(1) =~= Seq::<char>::empty());
            if is_wildcard(g) {
                assert(escape_like(seq![g]) =~= seq!['\\', g]);
            } else {
                assert(escape_like(seq![g]) =~= seq![g]);
            }
            assert(chars@.take(i + 1 as int) =~= chars@.take(i as int) + seq![g]);
            lemma_escape_like_concat(chars@.take(i as int), seq![g]);
            assert(out@ =~= seq!['%'] + escape_like(chars@.take(i + 1 as int)));
        }
        i = i + 1;
    }
    out.push('%');
    proof {
        assert(chars@.take(chars@.len() as int) =~= chars@);
        assert(out@ =~= wrap_like(chars@));
    }
    chars_to_string(&out)
}

/// The bound search value for free text `s`: `%` + escaped `s` + `%`.
pub fn like_pattern(s: &str) -> (r: String)
    ensures
        r@ == wrap_like(s@),
{
    let chars = str_chars(s);
    like_pattern_chars(&chars)
}

/// ASCII whitespace, for trimming the free-text criterion.
pub open spec fn is_space(c: char) -> bool {
    c == ' ' || c == '\t' || c == '\n' || c == '\r'
}

pub open spec fn trim_front(s: Seq<char>) -> Seq<char>
    decreases s.len(),
{
    if s.len() > 0 && is_space(s[0]) {
        trim_front(s.skip(1))
    } else {
        s
    }
}

pub open spec fn trim_back(s: Seq<char>) -> Seq<char>
    decreases s.len(),
{
    if s.len() > 0 && is_space(s[s.len() - 1]) {
        trim_back(s.take(s.len() - 1))
    } else {
        s
    }
}

/// `s` without leading and trailing ASCII whitespace.
pub open spec fn spec_trim(s: Seq<char>) -> Seq<char> {
    trim_back(trim_front(s))
}

fn is_space_char(c: char) -> (b: bool)
    ensures
        b == is_space(c),
{
    c == ' ' || c == '\t' || c == '\n' || c == '\r'
}

/// The characters of `v` without leading and trailing ASCII whitespace.
pub fn trim_chars(v: Vec<char>) -> (r: Vec<char>)
    ensures
        r@ == spec_trim(v@),
{
    let mut w = v;
    while w.len() > 0 && is_space_char(w[0])
        invariant
            trim_front(w@) == trim_front(v@),
        decreases w@.len(),
    {
        let ghost before = w@;
        let _dropped = w.remove(0);
        proof {
            assert(before.remove(0) =~= before.skip(1));
        }
    }
    assert(trim_front(w@) == w@);
    assert(w@ == trim_front(v@));
    while w.len() > 0 && is_space_char(w[w.len() - 1])
        invariant
            trim_back(w@) == trim_back(trim_front(v@)),
        decreases w@.len(),
    {
        let ghost before = w@;
        let _dropped = w.pop();
        proof {
            assert(before.subrange(0, before.len() - 1) =~= before.take(before.len() - 1));
        }
    }
    assert(trim_back(w@) == w@);
    w
}

/// Whether two strings hold the same characters.
pub fn str_eq(a: &str, b: &str) -> (r: bool)
    ensures
        r == (a@ == b@),
{
    let va = str_chars(a);
    let vb = str_chars(b);
    if va.len() != vb.len() {
        proof {
            if a@ == b@ {
                assert(a@.len() == b@.len());
            }
        }
        return false;
    }
    let mut i: usize = 0;
    while i < va.len()
        invariant
            0 <= i <= va.len(),
            va@ == a@,
            vb@ == b@,
            va@.len() == vb@.len(),
            forall|j: int| 0 <= j < i ==> a@[j] == b@[j],
        decreases va.len() - i,
    {
        if va[i] != vb[i] {
            return false;
        }
        i = i + 1;
    }
    proof {
        assert(a@ =~= b@);
    }
    true
}

/// LIKE matching from offsets `i` into the pattern and `j` into the text.
fn like_at(p: &Vec<char>, t: &Vec<char>, i: usize, j: usize) -> (b: bool)
    requires
        i <= p.len(),
        j <= t.len(),
    ensures
        b == like_matches(p@.skip(i as int), t@.skip(j as int)),
    decreases p@.len() - i + t@.len() - j,
{
    proof {
        assert(p@.skip(i as int).len() == p@.len() - i);
        assert(t@.skip(j as int).len() == t@.len() - j);
    }
    if i == p.len() {
        return j == t.len();
    }
    let c = p[i];
    proof {
        assert(p@.skip(i as int)[0] == p@[i as int]);
    }
    if c == '\\' {
        if i + 1 < p.len() && j < t.len() && t[j] == p[i + 1] {
            proof {
                assert(p@.skip(i as int)[1] == p@[i + 1]);
                assert(p@.skip(i as int).skip(2) =~= p@.skip(i + 2));
                assert(t@.skip(j as int).skip(1) =~= t@.skip(j + 1));
            }
            like_at(p, t, i + 2, j + 1)
        } else {
            proof {
                if i + 1 < p.len() {
                    assert(p@.skip(i as int)[1] == p@[i + 1]);
                }
            }
            false
        }
    } else if c == '%' {
        proof {
            assert(p@.skip(i as int).skip(1) =~= p@.skip(i + 1));
        }
        if like_at(p, t, i + 1, j) {
            true
        } else if j < t.len() {
            proof {
                assert(t@.skip(j as int).skip(1) =~= t@.skip(j + 1));
            }
            like_at(p, t, i, j + 1)
        } else {
            false
        }
    } else if c == '_' {
        if j < t.len() {
            proof {
                assert(p@.skip(i as int).skip(1) =~= p@.skip(i + 1));
                assert(t@.skip(j as int).skip(1) =~= t@.skip(j + 1));
            }
            like_at(p, t, i + 1, j + 1)
        } else {
            false
        }
    } else {
        if j < t.len() && t[j] == c {
            proof {
                assert(p@.skip(i as int).skip(1) =~= p@.skip(i + 1));
                assert(t@.skip(j as int).skip(1) =~= t@.skip(j + 1));
            }
            like_at(p, t, i + 1, j + 1)
        } else {
            false
        }
    }
}

/// Whether the LIKE pattern `pattern` matches `text`, under the semantics
/// of `like_matches`.
pub fn like_match(pattern: &str, text: &str) -> (b: bool)
    ensures
        b == like_matches(pattern@, text@),
{
    let p = str_chars(pattern);
    let t = str_chars(text);
    proof {
        assert(p@.skip(0) =~= pattern@);
        assert(t@.skip(0) =~= text@);
    }
    like_at(&p, &t, 0, 0)
}

} // verus!
