use vstd::prelude::*;

verus! {

/// The text of `t` before its first newline, or all of `t` when it holds none.
pub open spec fn spec_first_line(t: Seq<char>) -> Seq<char>
    decreases t.len(),
{
    if t.len() == 0 {
        t
    } else if t[0] == '\n' {
        Seq::empty()
    } else {
        seq![t[0]] + spec_first_line(t.drop_first())
    }
}

/// `l` is a prefix of `t` free of newlines, and `t` ends or breaks right after it.
pub open spec fn is_first_line(t: Seq<char>, l: Seq<char>) -> bool {
    &&& l.len() <= t.len()
    &&& l == t.take(l.len() as int)
    &&& forall|i: int| 0 <= i < l.len() ==> l[i] != '\n'
    &&& (l.len() == t.len() || t[l.len() as int] == '\n')
}

/// Relies on String::push: appends one character.
#[verifier::external_body]
pub(crate) fn push_char(s: &mut String, c: char)
    ensures
        final(s)@ == old(s)@.push(c),
{
    s.push(c);
}

/// A prefix of `t` free of newlines that `t` ends or breaks right after is its first line.
proof fn lemma_first_line_unique(t: Seq<char>, l: Seq<char>)
    requires
        is_first_line(t, l),
    ensures
        l == spec_first_line(t),
    decreases t.len(),
{
    if t.len() > 0 && l.len() > 0 {
        let (t2, l2) = (t.drop_first(), l.drop_first());
        assert(l2 == t2.take(l2.len() as int));
        assert(forall|i: int| 0 <= i < l2.len() ==> l2[i] == l[i + 1]);
        lemma_first_line_unique(t2, l2);
        assert(l[0] == t[0] && l[0] != '\n');
        assert(l =~= seq![t[0]] + l2);
    } else if t.len() > 0 {
        assert(t[0] == '\n');
        assert(l =~= Seq::empty());
    } else {
        assert(l =~= t);
    }
}

/// The first line of `t` is a prefix free of newlines, ended by one or by `t`'s end.
pub proof fn lemma_first_line_is_first_line(t: Seq<char>)
    ensures
        is_first_line(t, spec_first_line(t)),
    decreases t.len(),
{
    if t.len() > 0 && t[0] != '\n' {
        let t2 = t.drop_first();
        lemma_first_line_is_first_line(t2);
        let l = spec_first_line(t);
        let l2 = spec_first_line(t2);
        assert(l =~= seq![t[0]] + l2);
        assert(l =~= t.take(l.len() as int));
        assert forall|i: int| 0 <= i < l.len() implies l[i] != '\n' by {
            if i > 0 {
                assert(l[i] == l2[i - 1]);
            }
        }
        assert(l.len() == t.len() || t[l.len() as int] == t2[l2.len() as int]);
    } else if t.len() > 0 {
        assert(spec_first_line(t) =~= t.take(0));
    } else {
        assert(spec_first_line(t) =~= t.take(0));
    }
}

/// The first newline-delimited line of `t`.
pub fn first_line(t: &str) -> (r: String)
    ensures
        r@ == spec_first_line(t@),
        is_first_line(t@, r@),
{
    let mut r = String::new();
    let mut done = false;
    for c in it: t.chars()
        invariant
            it.seq() == t@,
            it.index() <= t@.len(),
            r@.len() <= it.index(),
            r@ == t@.take(r@.len() as int),
            forall|i: int| 0 <= i < r@.len() ==> r@[i] != '\n',
            done ==> t@[r@.len() as int] == '\n',
            !done ==> r@.len() == it.index(),
    {
        if !done {
            if c == '\n' {
                done = true;
            } else {
                push_char(&mut r, c);
                assert(r@ =~= t@.take(r@.len() as int));
            }
        }
    }
    proof {
        lemma_first_line_unique(t@, r@);
    }
    r
}

} // verus!
