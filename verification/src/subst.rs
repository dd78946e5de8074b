//! The substitution engine: literal replace-all of placeholder tokens.

use vstd::prelude::*;

verus! {

/// The placeholder token written `{name}` in a template.
pub open spec fn spec_placeholder(name: Seq<char>) -> Seq<char> {
    seq!['{'] + name + seq!['}']
}

/// Left-to-right, non-overlapping replacement of every occurrence of `pat`
/// by `rep`, as `str::replace` performs it. An empty pattern replaces nothing.
pub open spec fn spec_replace_all(s: Seq<char>, pat: Seq<char>, rep: Seq<char>) -> Seq<char>
    decreases s.len(),
{
    if pat.len() == 0 || s.len() < pat.len() {
        s
    } else if s.subrange(0, pat.len() as int) == pat {
        rep + spec_replace_all(s.skip(pat.len() as int), pat, rep)
    } else {
        seq![s[0]] + spec_replace_all(s.skip(1), pat, rep)
    }
}

/// `pat` occurs in `s` starting at position `i`.
pub open spec fn occurs_at(s: Seq<char>, pat: Seq<char>, i: int) -> bool {
    0 <= i && i + pat.len() <= s.len() && s.subrange(i, i + pat.len()) == pat
}

/// `pat` occurs somewhere in `s`.
pub open spec fn occurs_in(s: Seq<char>, pat: Seq<char>) -> bool {
    exists|i: int| occurs_at(s, pat, i)
}

/// Character-for-character equality of two strings.
pub fn str_equal(a: &str, b: &str) -> (r: bool)
    ensures
        r == (a@ == b@),
{
    let an = a.unicode_len();
    let bn = b.unicode_len();
    if an != bn {
        return false;
    }
    let mut i: usize = 0;
    while i < an
        invariant
            an == a@.len(),
            an == b@.len(),
            0 <= i <= an,
            forall|j: int| 0 <= j < i ==> a@[j] == b@[j],
        decreases an - i,
    {
        if a.get_char(i) != b.get_char(i) {
            return false;
        }
        i += 1;
    }
    proof {
        assert(a@ =~= b@);
    }
    true
}

/// Whether `pat` occurs in `s` at position `i`.
fn matches_at(s: &str, i: usize, pat: &str) -> (r: bool)
    requires
        i + pat@.len() <= s@.len(),
    ensures
        r == (s@.subrange(i as int, i + pat@.len()) == pat@),
{
    let p = pat.unicode_len();
    let n = s.unicode_len();
    let mut j: usize = 0;
    while j < p
        invariant
            p == pat@.len(),
            n == s@.len(),
            i + p <= n,
            0 <= j <= p,
            forall|k: int| 0 <= k < j ==> s@[i + k] == pat@[k],
        decreases p - j,
    {
        if s.get_char(i + j) != pat.get_char(j) {
            proof {
                assert(s@.subrange(i as int, i + pat@.len())[j as int] == s@[i + j]);
            }
            return false;
        }
        j += 1;
    }
    proof {
        assert(s@.subrange(i as int, i + pat@.len()) =~= pat@);
    }
    true
}

/// Replaces every occurrence of `pat` in `s` by `rep`, scanning left to
/// right without overlap.
pub fn replace_all(s: &str, pat: &str, rep: &str) -> (r: String)
    ensures
        r@ == spec_replace_all(s@, pat@, rep@),
{
    let n = s.unicode_len();
    let p = pat.unicode_len();
    if p == 0 {
        return String::from_str(s);
    }
    let mut out = String::new();
    let mut i: usize = 0;
    proof {
        assert(s@.skip(0) =~= s@);
        assert(out@ + spec_replace_all(s@, pat@, rep@) =~= spec_replace_all(s@, pat@, rep@));
    }
    while i < n
        invariant
            n == s@.len(),
            p == pat@.len(),
            p >= 1,
            0 <= i <= n,
            out@ + spec_replace_all(s@.skip(i as int), pat@, rep@) == spec_replace_all(
                s@,
                pat@,
                rep@,
            ),
        decreases n - i,
    {
        let ghost t = s@.skip(i as int);
        let ghost prev = out@;
        if p <= n - i && matches_at(s, i, pat) {
            out.append(rep);
            proof {
                assert(t.subrange(0, p as int) =~= s@.subrange(i as int, i + p));
                assert(t.skip(p as int) =~= s@.skip(i + p));
                assert(spec_replace_all(t, pat@, rep@) == rep@ + spec_replace_all(
                    s@.skip(i + p),
                    pat@,
                    rep@,
                ));
                assert(out@ + spec_replace_all(s@.skip(i + p), pat@, rep@) =~= prev
                    + spec_replace_all(t, pat@, rep@));
            }
            i += p;
        } else {
            let piece = s.substring_char(i, i + 1);
            out.append(piece);
            proof {
                assert(piece@ =~= seq![t[0]]);
                assert(t.skip(1) =~= s@.skip(i + 1));
                if t.len() < p {
                    assert(spec_replace_all(t, pat@, rep@) == t);
                    assert(spec_replace_all(t.skip(1), pat@, rep@) == t.skip(1));
                    assert(seq![t[0]] + t.skip(1) =~= t);
                } else {
                    assert(t.subrange(0, p as int) =~= s@.subrange(i as int, i + p));
                    assert(t.subrange(0, p as int) != pat@);
                    assert(spec_replace_all(t, pat@, rep@) == seq![t[0]] + spec_replace_all(
                        t.skip(1),
                        pat@,
                        rep@,
                    ));
                }
                assert(out@ + spec_replace_all(s@.skip(i + 1), pat@, rep@) =~= prev
                    + spec_replace_all(t, pat@, rep@));
            }
            i += 1;
        }
    }
    proof {
        assert(s@.skip(n as int) =~= Seq::<char>::empty());
        assert(spec_replace_all(s@.skip(n as int), pat@, rep@) == Seq::<char>::empty());
        assert(out@ + Seq::<char>::empty() =~= out@);
    }
    out
}

/// Replaces every occurrence of the placeholder `{name}` in `t` by `value`.
pub fn replace_placeholder(t: &str, name: &str, value: &str) -> (r: String)
    ensures
        r@ == spec_replace_all(t@, spec_placeholder(name@), value@),
{
    let mut pat = String::from_str("{");
    pat.append(name);
    pat.append("}");
    proof {
        reveal_strlit("{");
        reveal_strlit("}");
        assert(pat@ =~= spec_placeholder(name@));
    }
    replace_all(t, pat.as_str(), value)
}

/// Sequential named substitution: each `(name, value)` pair, in argument
/// order, replaces every occurrence of `{name}` left by the earlier pairs.
pub open spec fn spec_render_named(t: Seq<char>, args: Seq<(Seq<char>, Seq<char>)>) -> Seq<char>
    decreases args.len(),
{
    if args.len() == 0 {
        t
    } else {
        spec_render_named(
            spec_replace_all(t, spec_placeholder(args[0].0), args[0].1),
            args.drop_first(),
        )
    }
}

/// Applies each `(name, value)` argument to the template in order,
/// replacing all occurrences of `{name}` by `value`.
pub fn render_named(template: &str, args: &[(&str, &str)]) -> (r: String)
    ensures
        r@ == spec_render_named(template@, args.deep_view()),
{
    let ghost dv = args.deep_view();
    let mut msg = String::from_str(template);
    let mut k: usize = 0;
    proof {
        assert(dv.skip(0) =~= dv);
    }
    while k < args.len()
        invariant
            0 <= k <= args@.len(),
            dv == args.deep_view(),
            dv.len() == args@.len(),
            spec_render_named(msg@, dv.skip(k as int)) == spec_render_named(template@, dv),
        decreases args@.len() - k,
    {
        let ghost prev = msg@;
        let pair = args[k];
        msg = replace_placeholder(msg.as_str(), pair.0, pair.1);
        proof {
            assert(dv.skip(k as int)[0] == dv[k as int]);
            assert(dv[k as int] == (pair.0@, pair.1@));
            assert(dv.skip(k as int).drop_first() =~= dv.skip(k + 1));
            assert(spec_render_named(prev, dv.skip(k as int)) == spec_render_named(
                msg@,
                dv.skip(k + 1),
            ));
        }
        k += 1;
    }
    proof {
        assert(dv.skip(dv.len() as int) =~= Seq::<(Seq<char>, Seq<char>)>::empty());
        assert(spec_render_named(msg@, dv.skip(dv.len() as int)) == msg@);
    }
    msg
}

/// Replacement leaves a string without any occurrence of the pattern
/// unchanged.
pub proof fn lemma_no_occurrence_unchanged(s: Seq<char>, pat: Seq<char>, rep: Seq<char>)
    requires
        pat.len() > 0,
        !occurs_in(s, pat),
    ensures
        spec_replace_all(s, pat, rep) == s,
    decreases s.len(),
{
    if s.len() >= pat.len() {
        assert(!occurs_at(s, pat, 0));
        assert(s.subrange(0, pat.len() as int) != pat);
        assert forall|i: int| occurs_at(s.skip(1), pat, i) implies occurs_at(s, pat, i + 1) by {
            assert(s.skip(1).subrange(i, i + pat.len() as int) =~= s.subrange(
                i + 1,
                i + 1 + pat.len(),
            ));
        }
        assert(!occurs_in(s.skip(1), pat));
        lemma_no_occurrence_unchanged(s.skip(1), pat, rep);
        assert(seq![s[0]] + s.skip(1) =~= s);
    }
}

/// A pattern whose first character appears nowhere in `s` does not occur
/// in `s`.
pub proof fn lemma_no_first_char_no_occurrence(s: Seq<char>, pat: Seq<char>)
    requires
        pat.len() > 0,
        forall|j: int| 0 <= j < s.len() ==> s[j] != pat[0],
    ensures
        !occurs_in(s, pat),
{
    assert forall|i: int| !occurs_at(s, pat, i) by {
        if 0 <= i && i + pat.len() <= s.len() {
            assert(s.subrange(i, i + pat.len() as int)[0] == s[i]);
        }
    }
}

/// Replacing the placeholder `{name}` in text without any `{` leaves the
/// text unchanged.
pub proof fn lemma_replace_name_unchanged(t: Seq<char>, name: Seq<char>, v: Seq<char>)
    requires
        forall|i: int| 0 <= i < t.len() ==> t[i] != '{',
    ensures
        spec_replace_all(t, spec_placeholder(name), v) == t,
{
    assert(spec_placeholder(name)[0] == '{');
    lemma_no_first_char_no_occurrence(t, spec_placeholder(name));
    lemma_no_occurrence_unchanged(t, spec_placeholder(name), v);
}

/// A prefix free of the pattern's first character is copied through
/// unchanged; replacement goes on in the rest.
pub proof fn lemma_prefix_clear(a: Seq<char>, s: Seq<char>, pat: Seq<char>, rep: Seq<char>)
    requires
        pat.len() > 0,
        forall|j: int| 0 <= j < a.len() ==> a[j] != pat[0],
    ensures
        spec_replace_all(a + s, pat, rep) == a + spec_replace_all(s, pat, rep),
    decreases a.len(),
{
    if a.len() == 0 {
        assert(a + s =~= s);
        assert(a + spec_replace_all(s, pat, rep) =~= spec_replace_all(s, pat, rep));
    } else {
        let t = a + s;
        if t.len() < pat.len() {
            assert(s.len() < pat.len());
            assert(a + spec_replace_all(s, pat, rep) =~= t);
        } else {
            assert(t.subrange(0, pat.len() as int)[0] == t[0]);
            assert(t[0] == a[0]);
            assert(t.subrange(0, pat.len() as int) != pat);
            assert(t.skip(1) =~= a.skip(1) + s);
            lemma_prefix_clear(a.skip(1), s, pat, rep);
            assert(seq![a[0]] + (a.skip(1) + spec_replace_all(s, pat, rep)) =~= a
                + spec_replace_all(s, pat, rep));
        }
    }
}

/// A pattern standing at the head of the string is replaced, and
/// replacement resumes after it without rescanning the replacement text.
pub proof fn lemma_match_at_head(s: Seq<char>, pat: Seq<char>, rep: Seq<char>)
    requires
        pat.len() > 0,
    ensures
        spec_replace_all(pat + s, pat, rep) == rep + spec_replace_all(s, pat, rep),
{
    let t = pat + s;
    assert(t.subrange(0, pat.len() as int) =~= pat);
    assert(t.skip(pat.len() as int) =~= s);
}

/// Named substitution is replacement-order-stable: one argument `(name, v)`
/// replaces every occurrence of `{name}`, so a placeholder appearing twice
/// is filled at both places.
pub proof fn lemma_named_replaces_both_occurrences(
    a: Seq<char>,
    b: Seq<char>,
    c: Seq<char>,
    name: Seq<char>,
    v: Seq<char>,
)
    requires
        forall|j: int| 0 <= j < a.len() ==> a[j] != '{',
        forall|j: int| 0 <= j < b.len() ==> b[j] != '{',
        forall|j: int| 0 <= j < c.len() ==> c[j] != '{',
    ensures
        spec_render_named(
            a + spec_placeholder(name) + b + spec_placeholder(name) + c,
            seq![(name, v)],
        ) == a + v + b + v + c,
{
    let ph = spec_placeholder(name);
    assert(ph[0] == '{');
    let s2 = ph + c;
    let s3 = b + s2;
    let s4 = ph + s3;
    let t = a + ph + b + ph + c;
    assert(t =~= a + s4);

    lemma_no_first_char_no_occurrence(c, ph);
    lemma_no_occurrence_unchanged(c, ph, v);
    lemma_match_at_head(c, ph, v);
    lemma_prefix_clear(b, s2, ph, v);
    lemma_match_at_head(s3, ph, v);
    lemma_prefix_clear(a, s4, ph, v);
    assert(spec_replace_all(t, ph, v) == a + (v + (b + (v + c))));

    let args = seq![(name, v)];
    assert(args[0] == (name, v));
    assert(args.drop_first() =~= Seq::<(Seq<char>, Seq<char>)>::empty());
    assert(spec_render_named(spec_replace_all(t, ph, v), args.drop_first())
        == spec_replace_all(t, ph, v));
    assert(spec_render_named(t, args) == spec_replace_all(t, ph, v));
    assert(a + (v + (b + (v + c))) =~= a + v + b + v + c);
}

/// Placeholders with no matching argument survive verbatim: when no
/// supplied argument's placeholder occurs in the template, named
/// substitution returns the template unchanged.
pub proof fn lemma_unmatched_placeholders_survive(
    t: Seq<char>,
    args: Seq<(Seq<char>, Seq<char>)>,
)
    requires
        forall|k: int| 0 <= k < args.len() ==> !occurs_in(t, spec_placeholder((#[trigger] args[k]).0)),
    ensures
        spec_render_named(t, args) == t,
    decreases args.len(),
{
    if args.len() > 0 {
        lemma_no_occurrence_unchanged(t, spec_placeholder(args[0].0), args[0].1);
        assert(forall|k: int| 0 <= k < args.drop_first().len() ==> #[trigger] args.drop_first()[k]
            == args[k + 1]);
        lemma_unmatched_placeholders_survive(t, args.drop_first());
    }
}

/// Round trip: a template without any `{` contains no placeholder, so
/// named substitution returns it unchanged whatever the arguments are.
pub proof fn lemma_round_trip_named(t: Seq<char>, args: Seq<(Seq<char>, Seq<char>)>)
    requires
        forall|i: int| 0 <= i < t.len() ==> t[i] != '{',
    ensures
        spec_render_named(t, args) == t,
{
    assert forall|k: int| 0 <= k < args.len() implies !occurs_in(
        t,
        spec_placeholder((#[trigger] args[k]).0),
    ) by {
        assert(spec_placeholder(args[k].0)[0] == '{');
        lemma_no_first_char_no_occurrence(t, spec_placeholder(args[k].0));
    }
    lemma_unmatched_placeholders_survive(t, args);
}

} // verus!
