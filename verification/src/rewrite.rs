//! Literal substring rewriting over character sequences.
//!
//! A rewrite rule is a `(pattern, replacement)` pair of strings. One pass
//! replaces every occurrence of the pattern, left to right and without
//! overlap; a rule list is applied in order, each rule working on the output
//! of the previous one.

use vstd::prelude::*;

verus! {

/// One pass of literal substring replacement: every occurrence of `pat` in
/// `s` is replaced by `rep`, scanning left to right without overlap. An
/// empty pattern matches before every character and once at the end, so
/// `rep` is interleaved around every character of `s`.
pub open spec fn replaced(s: Seq<char>, pat: Seq<char>, rep: Seq<char>) -> Seq<char>
    decreases s.len(),
{
    if s.len() == 0 {
        if pat.len() == 0 {
            rep
        } else {
            Seq::empty()
        }
    } else if pat.len() == 0 {
        rep + seq![s[0]] + replaced(s.skip(1), pat, rep)
    } else if pat.len() <= s.len() && s.subrange(0, pat.len() as int) == pat {
        rep + replaced(s.skip(pat.len() as int), pat, rep)
    } else {
        seq![s[0]] + replaced(s.skip(1), pat, rep)
    }
}

/// Relies on `String::push`: appends the given character to the end of the
/// string.
#[verifier::external_body]
fn push_char(s: &mut String, c: char)
    ensures
        final(s)@ == old(s)@ + seq![c],
{
    s.push(c)
}

/// True iff `pat` occurs in `s` at character position `start`; `n` and `m`
/// are the character lengths of `s` and `pat`.
fn matches_at(s: &str, n: usize, start: usize, pat: &str, m: usize) -> (b: bool)
    requires
        n == s@.len(),
        m == pat@.len(),
        start + m <= n,
    ensures
        b == (s@.subrange(start as int, start as int + m as int) == pat@),
{
    let mut j: usize = 0;
    while j < m
        invariant
            n == s@.len(),
            m == pat@.len(),
            start + m <= n,
            j <= m,
            forall|k: int| 0 <= k < j ==> s@[start + k] == pat@[k],
        decreases m - j,
    {
        if s.get_char(start + j) != pat.get_char(j) {
            proof {
                assert(s@.subrange(start as int, start as int + m as int)[j as int]
                    == s@[start + j as int]);
            }
            return false;
        }
        j += 1;
    }
    proof {
        assert(s@.subrange(start as int, start as int + m as int) =~= pat@);
    }
    true
}

/// True iff the two strings hold the same characters.
pub fn str_eq(a: &str, b: &str) -> (r: bool)
    ensures
        r == (a@ == b@),
{
    let n = a.unicode_len();
    let m = b.unicode_len();
    if n != m {
        return false;
    }
    let r = matches_at(a, n, 0, b, m);
    proof {
        assert(a@.subrange(0, m as int) =~= a@);
    }
    r
}

/// One rewrite pass: the returned string is `s` with every occurrence of
/// `pat` replaced by `rep`, left to right, without overlap.
pub fn replace_str(s: &str, pat: &str, rep: &str) -> (r: String)
    ensures
        r@ == replaced(s@, pat@, rep@),
{
    let n = s.unicode_len();
    let m = pat.unicode_len();
    let mut r = String::new();
    proof {
        assert(s@.skip(0) =~= s@);
        assert(r@ + replaced(s@, pat@, rep@) =~= replaced(s@, pat@, rep@));
    }
    if m == 0 {
        let mut i: usize = 0;
        while i < n
            invariant
                n == s@.len(),
                m == pat@.len(),
                m == 0,
                i <= n,
                replaced(s@, pat@, rep@) == r@ + replaced(s@.skip(i as int), pat@, rep@),
            decreases n - i,
        {
            proof {
                assert(s@.skip(i as int)[0] == s@[i as int]);
                assert(s@.skip(i as int).skip(1) =~= s@.skip(i as int + 1));
            }
            r.append(rep);
            push_char(&mut r, s.get_char(i));
            proof {
                assert(r@ + replaced(s@.skip(i as int + 1), pat@, rep@)
                    =~= replaced(s@, pat@, rep@));
            }
            i += 1;
        }
        r.append(rep);
        proof {
            assert(s@.skip(n as int) =~= Seq::<char>::empty());
            assert(r@ =~= replaced(s@, pat@, rep@));
        }
    } else {
        let mut i: usize = 0;
        while i < n
            invariant
                n == s@.len(),
                m == pat@.len(),
                m >= 1,
                i <= n,
                replaced(s@, pat@, rep@) == r@ + replaced(s@.skip(i as int), pat@, rep@),
            decreases n - i,
        {
            if m <= n - i && matches_at(s, n, i, pat, m) {
                proof {
                    assert(s@.skip(i as int).subrange(0, m as int)
                        =~= s@.subrange(i as int, i as int + m as int));
                    assert(s@.skip(i as int).skip(m as int) =~= s@.skip(i as int + m as int));
                }
                r.append(rep);
                proof {
                    assert(r@ + replaced(s@.skip(i as int + m as int), pat@, rep@)
                        =~= replaced(s@, pat@, rep@));
                }
                i += m;
            } else {
                proof {
                    if m <= n - i {
                        assert(s@.skip(i as int).subrange(0, m as int)
                            =~= s@.subrange(i as int, i as int + m as int));
                    }
                    assert(s@.skip(i as int)[0] == s@[i as int]);
                    assert(s@.skip(i as int).skip(1) =~= s@.skip(i as int + 1));
                }
                push_char(&mut r, s.get_char(i));
                proof {
                    assert(r@ + replaced(s@.skip(i as int + 1), pat@, rep@)
                        =~= replaced(s@, pat@, rep@));
                }
                i += 1;
            }
        }
        proof {
            assert(s@.skip(n as int) =~= Seq::<char>::empty());
            assert(r@ =~= replaced(s@, pat@, rep@));
        }
    }
    r
}

/// The result of applying each `(pattern, replacement)` rule in order, each
/// a literal substring substitution over the output of the previous one.
pub open spec fn rewritten(url: Seq<char>, rules: Seq<(String, String)>) -> Seq<char>
    decreases rules.len(),
{
    if rules.len() == 0 {
        url
    } else {
        rewritten(replaced(url, rules[0].0@, rules[0].1@), rules.skip(1))
    }
}

/// Applies every rewrite rule to `url`, in order.
pub fn apply_rules(url: String, rules: &Vec<(String, String)>) -> (r: String)
    ensures
        r@ == rewritten(url@, rules@),
{
    let ghost orig = url@;
    let mut u = url;
    proof {
        assert(rules@.skip(0) =~= rules@);
    }
    let mut i: usize = 0;
    while i < rules.len()
        invariant
            i <= rules.len(),
            rewritten(orig, rules@) == rewritten(u@, rules@.skip(i as int)),
        decreases rules.len() - i,
    {
        proof {
            assert(rules@.skip(i as int)[0] == rules@[i as int]);
            assert(rules@.skip(i as int).skip(1) =~= rules@.skip(i as int + 1));
        }
        let nu = replace_str(u.as_str(), rules[i].0.as_str(), rules[i].1.as_str());
        u = nu;
        i += 1;
    }
    proof {
        assert(rules@.skip(rules@.len() as int) =~= Seq::<(String, String)>::empty());
    }
    u
}

/// Rules chain: with two rules, the second rewrites the output of the
/// first, so a replacement introduced by the first rule is itself subject
/// to the second.
pub proof fn lemma_rewrite_order(url: Seq<char>, r1: (String, String), r2: (String, String))
    ensures
        rewritten(url, seq![r1, r2]) == replaced(
            replaced(url, r1.0@, r1.1@),
            r2.0@,
            r2.1@,
        ),
{
    let rules = seq![r1, r2];
    assert(rules.skip(1) =~= seq![r2]);
    assert(seq![r2].skip(1) =~= Seq::<(String, String)>::empty());
    let a = replaced(url, r1.0@, r1.1@);
    let b = replaced(a, r2.0@, r2.1@);
    assert(rewritten(url, rules) == rewritten(a, seq![r2]));
    assert(rewritten(a, seq![r2]) == rewritten(b, Seq::<(String, String)>::empty()));
    assert(rewritten(b, Seq::<(String, String)>::empty()) == b);
}

} // verus!
