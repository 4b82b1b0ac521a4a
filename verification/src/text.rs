use vstd::prelude::*;

verus! {

/// Number of newline characters in `s`.
pub open spec fn count_newlines(s: Seq<char>) -> nat
    decreases s.len(),
{
    if s.len() == 0 {
        0
    } else {
        count_newlines(s.drop_last()) + if s.last() == '\n' {
            1nat
        } else {
            0nat
        }
    }
}

/// Number of lines, as a line-oriented reader of terminal text sees them:
/// one per newline-terminated segment, plus a final unterminated segment when
/// the text does not end in a newline. Empty text has no lines.
pub open spec fn line_count(s: Seq<char>) -> nat {
    count_newlines(s) + if s.len() > 0 && s.last() != '\n' {
        1nat
    } else {
        0nat
    }
}

/// Index of the first newline in `s`, or `s.len()` when there is none.
pub open spec fn first_newline(s: Seq<char>) -> int
    decreases s.len(),
{
    if s.len() == 0 {
        0
    } else if s[0] == '\n' {
        0
    } else {
        1 + first_newline(s.skip(1))
    }
}

/// A trailing carriage return is not part of a newline-terminated line's
/// visible content.
pub open spec fn strip_cr(l: Seq<char>) -> Seq<char> {
    if l.len() > 0 && l.last() == '\r' {
        l.drop_last()
    } else {
        l
    }
}

/// The `k`-th line of `s` as displayed: newline-separated, with a carriage
/// return before the newline stripped; empty when `s` has fewer lines. An
/// unterminated final line keeps a trailing carriage return, as a
/// line-oriented reader of the text would.
pub open spec fn line_at(s: Seq<char>, k: nat) -> Seq<char>
    decreases k,
{
    if k == 0 {
        if first_newline(s) < s.len() {
            strip_cr(s.take(first_newline(s)))
        } else {
            s.take(first_newline(s))
        }
    } else if first_newline(s) >= s.len() {
        Seq::empty()
    } else {
        line_at(s.skip(first_newline(s) + 1), (k - 1) as nat)
    }
}

pub proof fn lemma_count_newlines_le_len(s: Seq<char>)
    ensures
        count_newlines(s) <= s.len(),
    decreases s.len(),
{
    if s.len() > 0 {
        lemma_count_newlines_le_len(s.drop_last());
    }
}

/// A position with no newline before it and a newline (or the end) at it is
/// exactly where `first_newline` points.
pub proof fn lemma_first_newline_at(s: Seq<char>, p: int)
    requires
        0 <= p <= s.len(),
        forall|j: int| 0 <= j < p ==> s[j] != '\n',
        p < s.len() ==> s[p] == '\n',
    ensures
        first_newline(s) == p,
    decreases s.len(),
{
    if s.len() == 0 {
    } else if s[0] == '\n' {
        assert(p == 0);
    } else {
        assert(p >= 1);
        assert forall|j: int| 0 <= j < p - 1 implies s.skip(1)[j] != '\n' by {
            assert(s.skip(1)[j] == s[j + 1]);
        }
        if p - 1 < s.skip(1).len() {
            assert(s.skip(1)[p - 1] == s[p]);
        }
        lemma_first_newline_at(s.skip(1), p - 1);
    }
}

/// Counts the lines of `text`, in the sense of [`line_count`].
pub fn count_lines(text: &Vec<char>) -> (n: usize)
    ensures
        n == line_count(text@),
{
    let ghost s = text@;
    let mut nl: usize = 0;
    let mut i: usize = 0;
    while i < text.len()
        invariant
            i <= text.len(),
            s == text@,
            nl == count_newlines(s.take(i as int)),
            nl <= i,
        decreases text.len() - i,
    {
        proof {
            assert(s.take(i + 1).drop_last() =~= s.take(i as int));
            assert(s.take(i + 1).last() == s[i as int]);
        }
        if text[i] == '\n' {
            nl = nl + 1;
        }
        i = i + 1;
    }
    proof {
        assert(s.take(text.len() as int) =~= s);
    }
    if text.len() > 0 && text[text.len() - 1] != '\n' {
        proof {
            lemma_count_newlines_le_len(s.drop_last());
            assert(s.drop_last().len() == s.len() - 1);
        }
        nl + 1
    } else {
        nl
    }
}

/// A whitespace character, as whitespace-tokenization of a command line sees
/// it: the Unicode white-space code points.
pub open spec fn is_space(c: char) -> bool {
    ||| c == ' '
    ||| c == '\t'
    ||| c == '\n'
    ||| c == '\u{000B}'
    ||| c == '\u{000C}'
    ||| c == '\r'
    ||| c == '\u{0085}'
    ||| c == '\u{00A0}'
    ||| c == '\u{1680}'
    ||| ('\u{2000}' <= c && c <= '\u{200A}')
    ||| c == '\u{2028}'
    ||| c == '\u{2029}'
    ||| c == '\u{202F}'
    ||| c == '\u{205F}'
    ||| c == '\u{3000}'
}

pub fn is_space_char(c: char) -> (r: bool)
    ensures
        r == is_space(c),
{
    c == ' ' || c == '\t' || c == '\n' || c == '\u{000B}' || c == '\u{000C}' || c == '\r' || c
        == '\u{0085}' || c == '\u{00A0}' || c == '\u{1680}' || ('\u{2000}' <= c && c <= '\u{200A}')
        || c == '\u{2028}' || c == '\u{2029}' || c == '\u{202F}' || c == '\u{205F}' || c
        == '\u{3000}'
}

/// Length of the run of non-whitespace characters at the front of `s`.
pub open spec fn token_prefix_len(s: Seq<char>) -> int
    decreases s.len(),
{
    if s.len() == 0 {
        0
    } else if is_space(s[0]) {
        0
    } else {
        1 + token_prefix_len(s.skip(1))
    }
}

pub proof fn lemma_token_prefix_len(s: Seq<char>)
    ensures
        0 <= token_prefix_len(s) <= s.len(),
    decreases s.len(),
{
    if s.len() > 0 && !is_space(s[0]) {
        lemma_token_prefix_len(s.skip(1));
    }
}

/// A position with no whitespace before it and whitespace (or the end) at it
/// is exactly where the leading token ends.
pub proof fn lemma_token_prefix_at(s: Seq<char>, p: int)
    requires
        0 <= p <= s.len(),
        forall|j: int| 0 <= j < p ==> !is_space(s[j]),
        p < s.len() ==> is_space(s[p]),
    ensures
        token_prefix_len(s) == p,
    decreases s.len(),
{
    if s.len() == 0 {
    } else if is_space(s[0]) {
        assert(p == 0);
    } else {
        assert(p >= 1);
        assert forall|j: int| 0 <= j < p - 1 implies !is_space(s.skip(1)[j]) by {
            assert(s.skip(1)[j] == s[j + 1]);
        }
        if p - 1 < s.skip(1).len() {
            assert(s.skip(1)[p - 1] == s[p]);
        }
        lemma_token_prefix_at(s.skip(1), p - 1);
    }
}

/// The whitespace-separated tokens of `s`, in order: maximal runs of
/// non-whitespace characters.
pub open spec fn tokens(s: Seq<char>) -> Seq<Seq<char>>
    decreases s.len(),
    via tokens_decreases
{
    if s.len() == 0 {
        Seq::empty()
    } else if is_space(s[0]) {
        tokens(s.skip(1))
    } else {
        seq![s.take(token_prefix_len(s))] + tokens(s.skip(token_prefix_len(s)))
    }
}

#[via_fn]
proof fn tokens_decreases(s: Seq<char>) {
    if s.len() > 0 && !is_space(s[0]) {
        lemma_token_prefix_len(s);
        lemma_token_prefix_len(s.skip(1));
        assert(token_prefix_len(s) == 1 + token_prefix_len(s.skip(1)));
    }
}

/// Split a command line on whitespace, as the shell executor does before
/// treating the first token as the program and the rest as its arguments.
/// An empty result means there is nothing to run.
pub fn tokenize(cmd: &Vec<char>) -> (r: Vec<Vec<char>>)
    ensures
        r@.map_values(|t: Vec<char>| t@) == tokens(cmd@),
{
    let ghost s0 = cmd@;
    let mut r: Vec<Vec<char>> = Vec::new();
    let mut i: usize = 0;
    proof {
        assert(s0.skip(0) =~= s0);
        assert(r@.map_values(|t: Vec<char>| t@) =~= Seq::<Seq<char>>::empty());
    }
    while i < cmd.len()
        invariant
            i <= cmd.len(),
            s0 == cmd@,
            r@.map_values(|t: Vec<char>| t@) + tokens(s0.skip(i as int)) == tokens(s0),
        decreases cmd.len() - i,
    {
        if is_space_char(cmd[i]) {
            proof {
                assert(s0.skip(i as int).skip(1) =~= s0.skip(i + 1));
            }
            i = i + 1;
        } else {
            let ghost start = i as int;
            let ghost before = r@.map_values(|t: Vec<char>| t@);
            let mut t: Vec<char> = Vec::new();
            while i < cmd.len() && !is_space_char(cmd[i])
                invariant
                    0 <= start <= i <= cmd.len(),
                    s0 == cmd@,
                    forall|m: int| start <= m < i ==> !is_space(s0[m]),
                    t@ =~= s0.subrange(start, i as int),
                decreases cmd.len() - i,
            {
                t.push(cmd[i]);
                proof {
                    assert(s0.subrange(start, i + 1) =~= s0.subrange(start, i as int).push(
                        s0[i as int],
                    ));
                }
                i = i + 1;
            }
            let ghost suffix = s0.skip(start);
            proof {
                assert forall|jj: int| 0 <= jj < i - start implies !is_space(suffix[jj]) by {
                    assert(suffix[jj] == s0[start + jj]);
                }
                if i < cmd.len() {
                    assert(suffix[i - start] == s0[i as int]);
                }
                lemma_token_prefix_at(suffix, i - start);
                assert(suffix.take(i - start) =~= s0.subrange(start, i as int));
                assert(suffix.skip(i - start) =~= s0.skip(i as int));
                assert(tokens(suffix) == seq![t@] + tokens(s0.skip(i as int)));
            }
            r.push(t);
            proof {
                assert(r@.map_values(|t: Vec<char>| t@) =~= before.push(t@));
                assert(before.push(t@) + tokens(s0.skip(i as int)) =~= before + (seq![t@] + tokens(
                    s0.skip(i as int),
                )));
            }
        }
    }
    proof {
        assert(s0.skip(i as int) =~= Seq::<char>::empty());
        assert(r@.map_values(|t: Vec<char>| t@) + tokens(s0.skip(i as int)) =~= r@.map_values(
            |t: Vec<char>| t@,
        ));
    }
    r
}

/// Length of the `k`-th displayed line of `text`; zero when there is no such
/// line.
pub fn line_len_at(text: &Vec<char>, k: usize) -> (n: usize)
    ensures
        n == line_at(text@, k as nat).len(),
{
    let ghost s0 = text@;
    let mut start: usize = 0;
    let mut k_left: usize = k;
    proof {
        assert(s0.skip(0) =~= s0);
    }
    loop
        invariant
            start <= text.len(),
            s0 == text@,
            line_at(s0, k as nat) == line_at(s0.skip(start as int), k_left as nat),
        decreases text.len() - start + k_left,
    {
        // find the end of the current segment
        let mut j: usize = start;
        while j < text.len() && text[j] != '\n'
            invariant
                start <= j <= text.len(),
                s0 == text@,
                forall|m: int| start <= m < j ==> s0[m] != '\n',
            decreases text.len() - j,
        {
            j = j + 1;
        }
        let ghost suffix = s0.skip(start as int);
        proof {
            assert forall|jj: int| 0 <= jj < j - start implies suffix[jj] != '\n' by {
                assert(suffix[jj] == s0[start + jj]);
            }
            if j < text.len() {
                assert(suffix[j - start] == s0[j as int]);
            }
            lemma_first_newline_at(suffix, j - start);
        }
        if k_left == 0 {
            // the current segment is the line asked for
            let mut n: usize = j - start;
            proof {
                if j > start {
                    assert(suffix.take(j - start).last() == s0[j - 1]);
                }
            }
            if j < text.len() && n > 0 && text[j - 1] == '\r' {
                n = n - 1;
            }
            return n;
        }
        if j == text.len() {
            // no further segment: the line asked for does not exist
            proof {
                assert(line_at(suffix, k_left as nat) =~= Seq::<char>::empty());
            }
            return 0;
        }
        proof {
            assert(suffix.skip(j - start + 1) =~= s0.skip(j + 1));
        }
        start = j + 1;
        k_left = k_left - 1;
    }
}

} // verus!
