//! Collapsing text that the page wraps over several lines into one line.

use vstd::prelude::*;

verus! {

/// The text with every line boundary taken out: each `'\n'`, and each
/// `'\r'` that directly precedes one.
pub open spec fn flatten(s: Seq<char>) -> Seq<char>
    decreases s.len(),
{
    if s.len() == 0 {
        Seq::empty()
    } else if s[0] == '\n' {
        flatten(s.drop_first())
    } else if s[0] == '\r' && s.len() >= 2 && s[1] == '\n' {
        flatten(s.subrange(2, s.len() as int))
    } else {
        seq![s[0]] + flatten(s.drop_first())
    }
}

/// A flattened text holds no line feed.
pub proof fn lemma_flatten_single_line(s: Seq<char>)
    ensures
        !flatten(s).contains('\n'),
    decreases s.len(),
{
    if s.len() == 0 {
    } else if s[0] == '\n' {
        lemma_flatten_single_line(s.drop_first());
    } else if s[0] == '\r' && s.len() >= 2 && s[1] == '\n' {
        lemma_flatten_single_line(s.subrange(2, s.len() as int));
    } else {
        lemma_flatten_single_line(s.drop_first());
        let r = flatten(s.drop_first());
        assert forall|i: int| 0 <= i < flatten(s).len() implies flatten(s)[i] != '\n' by {
            if i > 0 {
                assert(flatten(s)[i] == r[i - 1]);
            }
        }
    }
}

/// Joins the lines of `text` into one string with no line boundary left.
pub fn flatten_lines(text: &str) -> (r: String)
    ensures
        r@ == flatten(text@),
        !r@.contains('\n'),
{
    let n = text.unicode_len();
    let mut out = String::new();
    let mut i: usize = 0;
    assert(text@.subrange(0, n as int) =~= text@);
    assert(out@ + flatten(text@) =~= flatten(text@));
    while i < n
        invariant
            n == text@.len(),
            i <= n,
            out@ + flatten(text@.subrange(i as int, n as int)) == flatten(text@),
        decreases n - i,
    {
        let ghost rest = text@.subrange(i as int, n as int);
        let c = text.get_char(i);
        if c == '\n' {
            assert(rest.drop_first() =~= text@.subrange(i + 1, n as int));
            i = i + 1;
        } else if c == '\r' && i + 1 < n && text.get_char(i + 1) == '\n' {
            assert(rest.subrange(2, rest.len() as int) =~= text@.subrange(i + 2, n as int));
            i = i + 2;
        } else {
            assert(rest.drop_first() =~= text@.subrange(i + 1, n as int));
            let piece = text.substring_char(i, i + 1);
            assert(piece@ =~= seq![c]);
            out.append(piece);
            assert(out@ + flatten(text@.subrange(i + 1, n as int)) =~= flatten(text@));
            i = i + 1;
        }
    }
    assert(text@.subrange(n as int, n as int) =~= Seq::<char>::empty());
    assert(out@ =~= flatten(text@));
    proof {
        lemma_flatten_single_line(text@);
    }
    out
}

} // verus!
