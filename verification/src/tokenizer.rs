//! Splitting a raw input line into whitespace-delimited tokens.

use vstd::prelude::*;

verus! {

/// The characters that separate tokens: the ASCII whitespace forms a
/// line read from a terminal can carry.
pub open spec fn is_space(c: char) -> bool {
    c == ' ' || c == '\t' || c == '\n' || c == '\r'
}

/// Length of the maximal run of non-whitespace characters at the front
/// of `s`.
pub open spec fn word_len(s: Seq<char>) -> nat
    decreases s.len(),
{
    if s.len() == 0 || is_space(s[0]) {
        0
    } else {
        word_len(s.drop_first()) + 1
    }
}

proof fn lemma_word_len_le(s: Seq<char>)
    ensures
        word_len(s) <= s.len(),
    decreases s.len(),
{
    if s.len() != 0 && !is_space(s[0]) {
        lemma_word_len_le(s.drop_first());
    }
}

/// The whitespace-delimited tokens of `s`, leftmost first: each maximal
/// run of non-whitespace characters is one token, and runs of whitespace
/// are skipped.
pub open spec fn tokens_of(s: Seq<char>) -> Seq<Seq<char>>
    decreases s.len(),
    via tokens_of_decreases
{
    if s.len() == 0 {
        Seq::<Seq<char>>::empty()
    } else if is_space(s[0]) {
        tokens_of(s.drop_first())
    } else {
        seq![s.subrange(0, word_len(s) as int)] + tokens_of(
            s.subrange(word_len(s) as int, s.len() as int),
        )
    }
}

#[via_fn]
proof fn tokens_of_decreases(s: Seq<char>) {
    if s.len() != 0 && !is_space(s[0]) {
        lemma_word_len_le(s);
    }
}

/// Every token a line splits into is non-empty.
pub proof fn lemma_tokens_nonempty(s: Seq<char>)
    ensures
        forall|i: int| 0 <= i < tokens_of(s).len() ==> #[trigger] tokens_of(s)[i].len() > 0,
    decreases s.len(),
{
    if s.len() == 0 {
    } else if is_space(s[0]) {
        lemma_tokens_nonempty(s.drop_first());
        assert forall|i: int| 0 <= i < tokens_of(s).len() implies #[trigger] tokens_of(
            s,
        )[i].len() > 0 by {
            assert(tokens_of(s)[i] == tokens_of(s.drop_first())[i]);
        }
    } else {
        lemma_word_len_le(s);
        let w = word_len(s) as int;
        let rest = tokens_of(s.subrange(w, s.len() as int));
        lemma_tokens_nonempty(s.subrange(w, s.len() as int));
        assert forall|i: int| 0 <= i < tokens_of(s).len() implies #[trigger] tokens_of(
            s,
        )[i].len() > 0 by {
            if i == 0 {
                assert(tokens_of(s)[0] == s.subrange(0, w));
            } else {
                assert(tokens_of(s)[i] == rest[i - 1]);
            }
        }
    }
}

/// A line that holds any non-whitespace character splits into at least
/// one token.
pub proof fn lemma_nonblank_has_token(s: Seq<char>)
    requires
        exists|i: int| 0 <= i < s.len() && !is_space(#[trigger] s[i]),
    ensures
        tokens_of(s).len() > 0,
    decreases s.len(),
{
    if s.len() != 0 && is_space(s[0]) {
        let i = choose|i: int| 0 <= i < s.len() && !is_space(#[trigger] s[i]);
        assert(0 <= i - 1 < s.drop_first().len() && !is_space(s.drop_first()[i - 1]));
        lemma_nonblank_has_token(s.drop_first());
    }
}

proof fn lemma_tokens_skip_space(s: Seq<char>, i: int)
    requires
        0 <= i < s.len(),
        is_space(s[i]),
    ensures
        tokens_of(s.skip(i)) == tokens_of(s.skip(i + 1)),
{
    assert(s.skip(i).drop_first() =~= s.skip(i + 1));
}

proof fn lemma_word_len_exact(s: Seq<char>, k: int)
    requires
        0 <= k <= s.len(),
        forall|m: int| 0 <= m < k ==> !is_space(#[trigger] s[m]),
        k == s.len() || is_space(s[k]),
    ensures
        word_len(s) == k,
    decreases k,
{
    if k > 0 {
        assert forall|m: int| 0 <= m < k - 1 implies !is_space(#[trigger] s.drop_first()[m]) by {
            assert(s.drop_first()[m] == s[m + 1]);
        }
        assert(k - 1 == s.drop_first().len() || is_space(s.drop_first()[k - 1]));
        lemma_word_len_exact(s.drop_first(), k - 1);
    }
}

proof fn lemma_tokens_take_word(s: Seq<char>, i: int, j: int)
    requires
        0 <= i < j <= s.len(),
        forall|m: int| i <= m < j ==> !is_space(#[trigger] s[m]),
        j == s.len() || is_space(s[j]),
    ensures
        tokens_of(s.skip(i)) == seq![s.subrange(i, j)] + tokens_of(s.skip(j)),
{
    let t = s.skip(i);
    assert forall|m: int| 0 <= m < j - i implies !is_space(#[trigger] t[m]) by {
        assert(t[m] == s[m + i]);
    }
    assert(j - i == t.len() || is_space(t[j - i]));
    lemma_word_len_exact(t, j - i);
    assert(t.subrange(0, j - i) =~= s.subrange(i, j));
    assert(t.subrange(j - i, t.len() as int) =~= s.skip(j));
}

/// Decide `is_space` on a concrete character.
pub fn is_space_char(c: char) -> (r: bool)
    ensures
        r == is_space(c),
{
    c == ' ' || c == '\t' || c == '\n' || c == '\r'
}

/// Split a line into its whitespace-delimited tokens, in their original
/// left-to-right order.
pub fn tokenize(line: &str) -> (tokens: Vec<String>)
    ensures
        tokens.deep_view() == tokens_of(line@),
{
    let n = line.unicode_len();
    let mut tokens: Vec<String> = Vec::new();
    let mut i: usize = 0;
    proof {
        assert(line@.skip(0) =~= line@);
    }
    while i < n
        invariant
            n == line@.len(),
            i <= n,
            tokens_of(line@) == tokens.deep_view() + tokens_of(line@.skip(i as int)),
        decreases n - i,
    {
        if is_space_char(line.get_char(i)) {
            proof {
                lemma_tokens_skip_space(line@, i as int);
            }
            i = i + 1;
        } else {
            let start = i;
            let mut j: usize = i;
            while j < n && !is_space_char(line.get_char(j))
                invariant
                    n == line@.len(),
                    i <= j <= n,
                    forall|m: int| i <= m < j ==> !is_space(#[trigger] line@[m]),
                decreases n - j,
            {
                j = j + 1;
            }
            let tok = line.substring_char(start, j).to_owned();
            let ghost prev = tokens.deep_view();
            tokens.push(tok);
            proof {
                lemma_tokens_take_word(line@, start as int, j as int);
                assert(tokens.deep_view() =~= prev.push(line@.subrange(start as int, j as int)));
                assert(prev.push(line@.subrange(start as int, j as int)) + tokens_of(
                    line@.skip(j as int),
                ) =~= prev + (seq![line@.subrange(start as int, j as int)] + tokens_of(
                    line@.skip(j as int),
                )));
            }
            i = j;
        }
    }
    proof {
        assert(line@.skip(n as int) =~= Seq::<char>::empty());
        assert(tokens.deep_view() + tokens_of(line@.skip(n as int)) =~= tokens.deep_view());
    }
    tokens
}

/// Decide whether two string slices hold the same characters.
pub fn str_eq(a: &str, b: &str) -> (r: bool)
    ensures
        r == (a@ == b@),
{
    let na = a.unicode_len();
    let nb = b.unicode_len();
    if na != nb {
        return false;
    }
    let mut i: usize = 0;
    while i < na
        invariant
            na == a@.len(),
            na == b@.len(),
            i <= na,
            forall|m: int| 0 <= m < i ==> a@[m] == b@[m],
        decreases na - i,
    {
        if a.get_char(i) != b.get_char(i) {
            return false;
        }
        i = i + 1;
    }
    proof {
        assert(a@ =~= b@);
    }
    true
}

} // verus!
