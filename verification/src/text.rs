//! Small text helpers over probe output and store-file content: the first
//! line of a file, blankness of a command's output, and trailing-whitespace
//! trimming of an inspect result.

use vstd::prelude::*;

verus! {

/// The whitespace characters that runtime-command output may carry around its
/// payload: space, tab, carriage return, line feed.
pub open spec fn is_space_char(c: char) -> bool {
    c == ' ' || c == '\t' || c == '\r' || c == '\n'
}

/// Index of the first line feed in `s`, or `s.len()` if there is none.
pub open spec fn line_break_at(s: Seq<char>) -> int
    decreases s.len(),
{
    if s.len() == 0 {
        0
    } else if s[0] == '\n' {
        0
    } else {
        1 + line_break_at(s.drop_first())
    }
}

pub proof fn lemma_line_break_at(s: Seq<char>)
    ensures
        0 <= line_break_at(s) <= s.len(),
        forall|i: int| 0 <= i < line_break_at(s) ==> s[i] != '\n',
        line_break_at(s) < s.len() ==> s[line_break_at(s)] == '\n',
    decreases s.len(),
{
    if s.len() != 0 && s[0] != '\n' {
        lemma_line_break_at(s.drop_first());
        assert forall|i: int| 0 <= i < line_break_at(s) implies s[i] != '\n' by {
            if i > 0 {
                assert(s.drop_first()[i - 1] != '\n');
            }
        }
    }
}

/// The first line of `s`: everything before the first line feed, with a
/// trailing carriage return (of a CRLF ending) dropped.
pub open spec fn first_line_of(s: Seq<char>) -> Seq<char> {
    let head = s.take(line_break_at(s));
    if head.len() > 0 && head.last() == '\r' {
        head.drop_last()
    } else {
        head
    }
}

/// Whether every character of `s` is whitespace; the empty sequence is blank.
pub open spec fn is_blank(s: Seq<char>) -> bool {
    forall|i: int| 0 <= i < s.len() ==> is_space_char(#[trigger] s[i])
}

/// `s` without its trailing whitespace.
pub open spec fn trimmed_end(s: Seq<char>) -> Seq<char>
    decreases s.len(),
{
    if s.len() == 0 {
        s
    } else if is_space_char(s.last()) {
        trimmed_end(s.drop_last())
    } else {
        s
    }
}

pub proof fn lemma_trimmed_end(s: Seq<char>)
    ensures
        trimmed_end(s).len() <= s.len(),
        trimmed_end(s) == s.take(trimmed_end(s).len() as int),
        forall|i: int| trimmed_end(s).len() <= i < s.len() ==> is_space_char(#[trigger] s[i]),
        trimmed_end(s).len() > 0 ==> !is_space_char(s[trimmed_end(s).len() - 1]),
    decreases s.len(),
{
    if s.len() > 0 && is_space_char(s.last()) {
        lemma_trimmed_end(s.drop_last());
        assert(s.drop_last() == s.take(s.len() - 1));
        assert(trimmed_end(s) == s.take(trimmed_end(s).len() as int));
        assert forall|i: int| trimmed_end(s).len() <= i < s.len() implies is_space_char(
            #[trigger] s[i],
        ) by {
            if i < s.len() - 1 {
                assert(is_space_char(s.drop_last()[i]));
            }
        }
    } else {
        assert(trimmed_end(s) == s.take(trimmed_end(s).len() as int));
    }
}

/// First line of a store file's content, as the identity store reads it.
pub fn first_line(content: &str) -> (r: String)
    ensures
        r@ == first_line_of(content@),
{
    proof {
        lemma_line_break_at(content@);
    }
    let n = content.unicode_len();
    let mut j: usize = 0;
    while j < n && content.get_char(j) != '\n'
        invariant
            0 <= j <= n,
            n == content@.len(),
            forall|i: int| 0 <= i < j ==> content@[i] != '\n',
        decreases n - j,
    {
        j = j + 1;
    }
    proof {
        if j < n {
            assert(content@[j as int] == '\n');
        }
        assert(j == line_break_at(content@)) by {
            if j < line_break_at(content@) {
                assert(content@[j as int] != '\n');
            }
            if line_break_at(content@) < j {
                assert(content@[line_break_at(content@)] != '\n');
            }
        }
    }
    let head = content.substring_char(0, j);
    assert(head@ == content@.take(j as int));
    if j > 0 && head.get_char(j - 1) == '\r' {
        let trimmed = head.substring_char(0, j - 1);
        assert(trimmed@ =~= content@.take(j as int).drop_last());
        String::from_str(trimmed)
    } else {
        String::from_str(head)
    }
}

/// Whether a runtime command's captured output holds nothing but whitespace.
pub fn output_is_blank(out: &str) -> (r: bool)
    ensures
        r == is_blank(out@),
{
    let n = out.unicode_len();
    let mut i: usize = 0;
    while i < n
        invariant
            0 <= i <= n,
            n == out@.len(),
            forall|k: int| 0 <= k < i ==> is_space_char(#[trigger] out@[k]),
        decreases n - i,
    {
        let c = out.get_char(i);
        if !(c == ' ' || c == '\t' || c == '\r' || c == '\n') {
            return false;
        }
        i = i + 1;
    }
    true
}

fn char_before_is_space(s: &str, j: usize) -> (r: bool)
    requires
        1 <= j <= s@.len(),
    ensures
        r == is_space_char(s@[j - 1]),
{
    let c = s.get_char(j - 1);
    c == ' ' || c == '\t' || c == '\r' || c == '\n'
}

/// Strips trailing whitespace from an inspect command's status output.
pub fn trim_end(out: &str) -> (r: String)
    ensures
        r@ == trimmed_end(out@),
{
    proof {
        lemma_trimmed_end(out@);
    }
    let n = out.unicode_len();
    let mut j: usize = n;
    while j > 0 && char_before_is_space(out, j)
        invariant
            0 <= j <= n,
            n == out@.len(),
            forall|k: int| j <= k < n ==> is_space_char(#[trigger] out@[k]),
        decreases j,
    {
        j = j - 1;
    }
    proof {
        let te = trimmed_end(out@).len() as int;
        assert(j == te) by {
            if j < te {
                assert(is_space_char(out@[te - 1]));
            }
            if te < j {
                assert(is_space_char(out@[j - 1]));
            }
        }
    }
    let kept = out.substring_char(0, j);
    String::from_str(kept)
}

} // verus!
