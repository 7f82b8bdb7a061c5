//! Filling the commit-message template with the staged diff.

use vstd::prelude::*;
use vstd::string::*;
use crate::text::{chars_of, push_char};

verus! {

/// The placeholder in a template that the diff takes the place of.
pub const DIFF_PLACEHOLDER: &'static str = "{{diff}}";

/// `p` is a prefix of `s`.
pub open spec fn has_prefix(s: Seq<char>, p: Seq<char>) -> bool {
    &&& p.len() <= s.len()
    &&& forall|j: int| 0 <= j < p.len() ==> #[trigger] s[j] == p[j]
}

/// `p` occurs in `s` at some position.
pub open spec fn occurs_in(s: Seq<char>, p: Seq<char>) -> bool {
    exists|i: int| 0 <= i <= s.len() && has_prefix(#[trigger] s.skip(i), p)
}

/// `s` with every occurrence of `from` replaced by `to`, occurrences taken from the left and
/// without overlap, as `str::replace` does for a pattern that is not empty.
pub open spec fn replace_all(s: Seq<char>, from: Seq<char>, to: Seq<char>) -> Seq<char>
    decreases s.len(),
{
    if s.len() == 0 {
        s
    } else if from.len() > 0 && has_prefix(s, from) {
        to + replace_all(s.skip(from.len() as int), from, to)
    } else {
        seq![s[0]] + replace_all(s.drop_first(), from, to)
    }
}

/// A template in which the placeholder does not occur comes back unchanged.
pub proof fn lemma_replace_absent(s: Seq<char>, from: Seq<char>, to: Seq<char>)
    requires
        from.len() > 0,
        !occurs_in(s, from),
    ensures
        replace_all(s, from, to) == s,
    decreases s.len(),
{
    if s.len() > 0 {
        assert(s.skip(0) == s);
        assert(!has_prefix(s, from));
        assert forall|i: int| 0 <= i <= s.drop_first().len() implies !has_prefix(
            #[trigger] s.drop_first().skip(i),
            from,
        ) by {
            assert(s.drop_first().skip(i) == s.skip(i + 1));
        }
        lemma_replace_absent(s.drop_first(), from, to);
        assert(seq![s[0]] + s.drop_first() == s);
    }
}

/// Putting the placeholder itself in place of the placeholder leaves any text unchanged.
pub proof fn lemma_replace_with_itself(s: Seq<char>, from: Seq<char>)
    requires
        from.len() > 0,
    ensures
        replace_all(s, from, from) == s,
    decreases s.len(),
{
    if s.len() > 0 {
        if has_prefix(s, from) {
            lemma_replace_with_itself(s.skip(from.len() as int), from);
            assert(from + s.skip(from.len() as int) == s);
        } else {
            lemma_replace_with_itself(s.drop_first(), from);
            assert(seq![s[0]] + s.drop_first() == s);
        }
    }
}

/// Every occurrence is replaced, wherever it stands and however long the text: when the first
/// occurrence of `from` in a text starts right after `p`, the text is replaced as `p` is, then
/// `to`, then the rest after the occurrence as it is on its own.
pub proof fn law_replace_at_first_occurrence(
    p: Seq<char>,
    from: Seq<char>,
    q: Seq<char>,
    to: Seq<char>,
)
    requires
        from.len() > 0,
        forall|i: int| 0 <= i < p.len() ==> !has_prefix(#[trigger] (p + from + q).skip(i), from),
    ensures
        replace_all(p + from + q, from, to) == replace_all(p, from, to) + to + replace_all(
            q,
            from,
            to,
        ),
    decreases p.len(),
{
    let s = p + from + q;
    if p.len() == 0 {
        assert(p + from + q =~= from + q);
        assert(has_prefix(s, from));
        assert(s.skip(from.len() as int) =~= q);
        assert(replace_all(p, from, to) == p);
        assert(Seq::<char>::empty() + to =~= to);
    } else {
        assert(s.skip(0) =~= s);
        assert(!has_prefix(s, from));
        let p1 = p.drop_first();
        assert(s.drop_first() =~= p1 + from + q);
        assert forall|i: int| 0 <= i < p1.len() implies !has_prefix(
            #[trigger] (p1 + from + q).skip(i),
            from,
        ) by {
            assert((p1 + from + q).skip(i) =~= s.skip(i + 1));
        }
        law_replace_at_first_occurrence(p1, from, q, to);
        if has_prefix(p, from) {
            assert forall|j: int| 0 <= j < from.len() implies #[trigger] s[j] == from[j] by {
                assert(p[j] == from[j]);
            }
            assert(has_prefix(s, from));
        }
        assert(s[0] == p[0]);
        assert(seq![p[0]] + (replace_all(p1, from, to) + to + replace_all(q, from, to))
            =~= (seq![p[0]] + replace_all(p1, from, to)) + to + replace_all(q, from, to));
    }
}

fn matches_at(s: &Vec<char>, i: usize, p: &Vec<char>) -> (res: bool)
    requires
        i <= s.len(),
    ensures
        res == has_prefix(s@.skip(i as int), p@),
{
    if p.len() > s.len() - i {
        return false;
    }
    let mut j: usize = 0;
    while j < p.len()
        invariant
            i + p.len() <= s.len(),
            j <= p.len(),
            forall|k: int| 0 <= k < j ==> s@[i + k] == p@[k],
        decreases p.len() - j,
    {
        if s[i + j] != p[j] {
            assert(s@.skip(i as int)[j as int] != p@[j as int]);
            return false;
        }
        j = j + 1;
    }
    assert forall|k: int| 0 <= k < p@.len() implies #[trigger] s@.skip(i as int)[k] == p@[k] by {
        assert(s@[i + k] == p@[k]);
    }
    true
}

/// `s` with every occurrence of the non-empty pattern `from` replaced by `to`.
pub fn replace_all_exec(s: &str, from: &str, to: &str) -> (res: String)
    requires
        from@.len() > 0,
    ensures
        res@ == replace_all(s@, from@, to@),
{
    let t = chars_of(s);
    let p = chars_of(from);
    let n = t.len();
    let mut res = String::new();
    let mut i: usize = 0;
    assert(t@.skip(0) == t@);
    while i < n
        invariant
            n == t@.len(),
            t@ == s@,
            p@ == from@,
            p@.len() > 0,
            i <= n,
            res@ + replace_all(t@.skip(i as int), p@, to@) == replace_all(t@, p@, to@),
        decreases n - i,
    {
        let ghost rest = t@.skip(i as int);
        if matches_at(&t, i, &p) {
            assert(rest.skip(p@.len() as int) == t@.skip(i + p@.len()));
            res.append(to);
            i = i + p.len();
        } else {
            assert(rest.drop_first() == t@.skip(i + 1));
            push_char(&mut res, t[i]);
            i = i + 1;
        }
    }
    assert(t@.skip(n as int).len() == 0);
    res
}

/// The template with the diff put in place of each `{{diff}}`.
pub fn fill_template(template: &str, diff: &str) -> (res: String)
    ensures
        res@ == replace_all(template@, DIFF_PLACEHOLDER@, diff@),
{
    proof {
        reveal_strlit("{{diff}}");
    }
    replace_all_exec(template, DIFF_PLACEHOLDER, diff)
}

} // verus!
