//! Splitting a bookkeeping file's contents into its newline-separated
//! entries, empties kept: one entry more than there are newlines.

use vstd::prelude::*;

verus! {

/// Length of the maximal run of non-newline characters at the front of
/// `s`.
pub open spec fn line_len(s: Seq<char>) -> nat
    decreases s.len(),
{
    if s.len() == 0 || s[0] == '\n' {
        0
    } else {
        line_len(s.drop_first()) + 1
    }
}

proof fn lemma_line_len_le(s: Seq<char>)
    ensures
        line_len(s) <= s.len(),
    decreases s.len(),
{
    if s.len() != 0 && s[0] != '\n' {
        lemma_line_len_le(s.drop_first());
    }
}

/// The newline-separated parts of `s`, in order, empty parts kept.
pub open spec fn lines_of(s: Seq<char>) -> Seq<Seq<char>>
    decreases s.len(),
    via lines_of_decreases
{
    if line_len(s) == s.len() {
        seq![s]
    } else {
        seq![s.subrange(0, line_len(s) as int)] + lines_of(
            s.subrange(line_len(s) as int + 1, s.len() as int),
        )
    }
}

#[via_fn]
proof fn lines_of_decreases(s: Seq<char>) {
    lemma_line_len_le(s);
}

proof fn lemma_line_len_exact(s: Seq<char>, k: int)
    requires
        0 <= k <= s.len(),
        forall|m: int| 0 <= m < k ==> #[trigger] s[m] != '\n',
        k == s.len() || s[k] == '\n',
    ensures
        line_len(s) == k,
    decreases k,
{
    if k > 0 {
        assert forall|m: int| 0 <= m < k - 1 implies #[trigger] s.drop_first()[m] != '\n' by {
            assert(s.drop_first()[m] == s[m + 1]);
        }
        assert(k - 1 == s.drop_first().len() || s.drop_first()[k - 1] == '\n');
        lemma_line_len_exact(s.drop_first(), k - 1);
    }
}

proof fn lemma_lines_last(s: Seq<char>, i: int)
    requires
        0 <= i <= s.len(),
        forall|m: int| i <= m < s.len() ==> #[trigger] s[m] != '\n',
    ensures
        lines_of(s.skip(i)) == seq![s.subrange(i, s.len() as int)],
{
    let t = s.skip(i);
    assert forall|m: int| 0 <= m < t.len() implies #[trigger] t[m] != '\n' by {
        assert(t[m] == s[m + i]);
    }
    lemma_line_len_exact(t, t.len() as int);
    assert(t =~= s.subrange(i, s.len() as int));
}

proof fn lemma_lines_cut(s: Seq<char>, i: int, j: int)
    requires
        0 <= i <= j < s.len(),
        forall|m: int| i <= m < j ==> #[trigger] s[m] != '\n',
        s[j] == '\n',
    ensures
        lines_of(s.skip(i)) == seq![s.subrange(i, j)] + lines_of(s.skip(j + 1)),
{
    let t = s.skip(i);
    assert forall|m: int| 0 <= m < j - i implies #[trigger] t[m] != '\n' by {
        assert(t[m] == s[m + i]);
    }
    assert(t[j - i] == '\n');
    lemma_line_len_exact(t, j - i);
    assert(t.subrange(0, j - i) =~= s.subrange(i, j));
    assert(t.subrange(j - i + 1, t.len() as int) =~= s.skip(j + 1));
}

/// Decide whether a character is the entry separator.
pub fn is_newline_char(c: char) -> (r: bool)
    ensures
        r == (c == '\n'),
{
    c == '\n'
}

/// Split a file's contents at each newline, keeping empty parts, in
/// their original order.
pub fn split_lines(s: &str) -> (parts: Vec<String>)
    ensures
        parts.deep_view() == lines_of(s@),
{
    let n = s.unicode_len();
    let mut parts: Vec<String> = Vec::new();
    let mut i: usize = 0;
    proof {
        assert(s@.skip(0) =~= s@);
    }
    loop
        invariant_except_break
            n == s@.len(),
            i <= n,
            lines_of(s@) == parts.deep_view() + lines_of(s@.skip(i as int)),
        ensures
            parts.deep_view() == lines_of(s@),
        decreases n - i,
    {
        let mut j: usize = i;
        while j < n && !is_newline_char(s.get_char(j))
            invariant
                n == s@.len(),
                i <= j <= n,
                forall|m: int| i <= m < j ==> #[trigger] s@[m] != '\n',
            decreases n - j,
        {
            j = j + 1;
        }
        let part = s.substring_char(i, j).to_owned();
        let ghost prev = parts.deep_view();
        parts.push(part);
        proof {
            assert(parts.deep_view() =~= prev.push(s@.subrange(i as int, j as int)));
        }
        if j == n {
            proof {
                lemma_lines_last(s@, i as int);
                assert(prev.push(s@.subrange(i as int, n as int)) =~= prev + seq![
                    s@.subrange(i as int, n as int),
                ]);
            }
            break ;
        }
        proof {
            lemma_lines_cut(s@, i as int, j as int);
            assert(prev.push(s@.subrange(i as int, j as int)) + lines_of(s@.skip(j + 1)) =~= prev
                + (seq![s@.subrange(i as int, j as int)] + lines_of(s@.skip(j + 1))));
        }
        i = j + 1;
    }
    parts
}

} // verus!
