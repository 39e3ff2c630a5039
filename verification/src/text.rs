//! Text as the filesystem reader hands it over: comparing it, taking the
//! line terminator off its end, and cutting it into lines.

use vstd::prelude::*;
use vstd::string::StrSliceExecFns;
use vstd::string::StringSliceAdditionalSpecFns;
use vstd::utf8::encode_utf8_decode_utf8;

verus! {

/// The character that ends a line.
pub open spec fn line_break() -> char {
    '\n'
}

/// Whether `s` holds no line break.
pub open spec fn is_single_line(s: Seq<char>) -> bool {
    forall|i: int| 0 <= i < s.len() ==> #[trigger] s[i] != line_break()
}

/// The content of a file without the line terminator that ends it. Only
/// one terminator is taken off; text that ends in none is left as it is.
pub open spec fn without_line_terminator(s: Seq<char>) -> Seq<char> {
    if s.len() > 0 && s.last() == line_break() {
        s.drop_last()
    } else {
        s
    }
}

/// The position of the first line break in `s`, or the length of `s`
/// where it holds none.
pub open spec fn first_break(s: Seq<char>) -> int
    decreases s.len(),
{
    if s.len() == 0 || s[0] == line_break() {
        0
    } else {
        1 + first_break(s.skip(1))
    }
}

/// The lines of `s`, first to last. Every line break ends a line; what
/// follows the last one is a line of its own unless it is empty, so the
/// empty text has no line and a final line break adds none.
pub open spec fn lines_of(s: Seq<char>) -> Seq<Seq<char>>
    decreases s.len(),
{
    if s.len() == 0 {
        Seq::empty()
    } else {
        let k = first_break(s);
        if 0 <= k < s.len() {
            seq![s.take(k)] + lines_of(s.skip(k + 1))
        } else {
            seq![s]
        }
    }
}

/// The text whose lines are `lines`: each line but the last is followed
/// by a line break.
pub open spec fn joined_lines(lines: Seq<Seq<char>>) -> Seq<char>
    decreases lines.len(),
{
    if lines.len() == 0 {
        Seq::empty()
    } else if lines.len() == 1 {
        lines[0]
    } else {
        lines[0] + seq![line_break()] + joined_lines(lines.skip(1))
    }
}

/// Where the first `k` characters of `s` hold no line break, the first
/// break of `s` is at `k` if a break stands there or `s` ends there.
pub proof fn lemma_first_break_at(s: Seq<char>, k: int)
    requires
        0 <= k <= s.len(),
        is_single_line(s.take(k)),
        k == s.len() || s[k] == line_break(),
    ensures
        first_break(s) == k,
    decreases k,
{
    if k > 0 {
        assert(s.take(k)[0] == s[0]);
        let rest = s.skip(1);
        assert forall|i: int| 0 <= i < k - 1 implies #[trigger] rest.take(k - 1)[i]
            != line_break() by {
            assert(rest.take(k - 1)[i] == s.take(k)[i + 1]);
        }
        lemma_first_break_at(rest, k - 1);
    }
}

/// The first break of `s` lies within `s` or at its end, no break stands
/// before it, and one stands at it unless it is the end.
pub proof fn lemma_first_break_is_first(s: Seq<char>)
    ensures
        0 <= first_break(s) <= s.len(),
        is_single_line(s.take(first_break(s))),
        first_break(s) < s.len() ==> s[first_break(s)] == line_break(),
    decreases s.len(),
{
    if s.len() == 0 || s[0] == line_break() {
    } else {
        let rest = s.skip(1);
        lemma_first_break_is_first(rest);
        let k = first_break(s);
        assert forall|i: int| 0 <= i < k implies #[trigger] s.take(k)[i] != line_break() by {
            if i > 0 {
                assert(s.take(k)[i] == rest.take(k - 1)[i - 1]);
            }
        }
    }
}

/// A text has no line exactly when it is empty.
pub proof fn lemma_lines_of_nothing(s: Seq<char>)
    ensures
        lines_of(s).len() == 0 <==> s.len() == 0,
{
}

/// No line of a text holds a line break.
pub proof fn lemma_lines_hold_no_break(s: Seq<char>)
    ensures
        forall|i: int| 0 <= i < lines_of(s).len() ==> is_single_line(#[trigger] lines_of(s)[i]),
    decreases s.len(),
{
    if s.len() > 0 {
        lemma_first_break_is_first(s);
        let k = first_break(s);
        if k < s.len() {
            let rest = s.skip(k + 1);
            lemma_lines_hold_no_break(rest);
            assert forall|i: int| 0 <= i < lines_of(s).len() implies is_single_line(
                #[trigger] lines_of(s)[i],
            ) by {
                if i > 0 {
                    assert(lines_of(s)[i] == lines_of(rest)[i - 1]);
                }
            }
        } else {
            assert(s.take(k) =~= s);
        }
    }
}

/// Joining the lines of a text gives the text back, but for the line
/// terminator at its end.
pub proof fn lemma_joined_lines_of(s: Seq<char>)
    ensures
        joined_lines(lines_of(s)) == without_line_terminator(s),
    decreases s.len(),
{
    if s.len() > 0 {
        lemma_first_break_is_first(s);
        let k = first_break(s);
        if k < s.len() {
            let rest = s.skip(k + 1);
            lemma_joined_lines_of(rest);
            lemma_lines_of_nothing(rest);
            assert(lines_of(s).skip(1) =~= lines_of(rest));
        } else {
            assert(s.take(k)[k - 1] == s.last());
        }
    }
}

/// Cutting into lines the text that was joined from `lines` gives `lines`
/// back, provided that no line holds a line break and that the last line,
/// if there is one, is not empty.
pub proof fn lemma_lines_of_joined(lines: Seq<Seq<char>>)
    requires
        forall|i: int| 0 <= i < lines.len() ==> is_single_line(#[trigger] lines[i]),
        lines.len() > 0 ==> lines.last().len() > 0,
    ensures
        lines_of(joined_lines(lines)) == lines,
    decreases lines.len(),
{
    let s = joined_lines(lines);
    if lines.len() == 1 {
        lemma_first_break_at(s, s.len() as int);
    } else if lines.len() > 1 {
        let rest = lines.skip(1);
        let k = lines[0].len() as int;
        assert(forall|i: int| 0 <= i < rest.len() ==> is_single_line(#[trigger] rest[i]));
        lemma_lines_of_joined(rest);
        assert(s.take(k) =~= lines[0]);
        lemma_first_break_at(s, k);
        assert(s.skip(k + 1) =~= joined_lines(rest));
    }
}

/// Whether two byte strings hold the same bytes.
pub fn same_bytes(a: &[u8], b: &[u8]) -> (r: bool)
    ensures
        r == (a@ == b@),
{
    if a.len() != b.len() {
        return false;
    }
    let mut i: usize = 0;
    while i < a.len()
        invariant
            a@.len() == b@.len(),
            0 <= i <= a@.len(),
            forall|k: int| 0 <= k < i ==> a@[k] == b@[k],
        decreases a@.len() - i,
    {
        if a[i] != b[i] {
            return false;
        }
        i = i + 1;
    }
    assert(a@ =~= b@);
    true
}

/// Whether two texts hold the same characters.
pub fn same_text(a: &str, b: &str) -> (r: bool)
    ensures
        r == (a@ == b@),
{
    proof {
        encode_utf8_decode_utf8(a@);
        encode_utf8_decode_utf8(b@);
    }
    same_bytes(a.as_bytes(), b.as_bytes())
}

/// Takes the line terminator off the end of a file's content.
pub fn strip_line_terminator(raw: &str) -> (r: String)
    ensures
        r@ == without_line_terminator(raw@),
{
    let n: usize = raw.unicode_len();
    if n > 0 && raw.get_char(n - 1) == '\n' {
        raw.substring_char(0, n - 1).to_owned()
    } else {
        raw.to_owned()
    }
}

/// Cuts a text into its lines.
pub fn split_lines(text: &str) -> (r: Vec<String>)
    ensures
        r.deep_view() == lines_of(text@),
{
    let n: usize = text.unicode_len();
    let mut lines: Vec<String> = Vec::new();
    let mut from: usize = 0;
    let mut i: usize = 0;
    assert(text@.skip(0) =~= text@);
    while i < n
        invariant
            n == text@.len(),
            0 <= from <= i <= n,
            is_single_line(text@.subrange(from as int, i as int)),
            lines_of(text@) == lines.deep_view() + lines_of(text@.skip(from as int)),
        decreases n - i,
    {
        let c: char = text.get_char(i);
        let ghost tail = text@.skip(from as int);
        let ghost before = lines.deep_view();
        if c == '\n' {
            let line = text.substring_char(from, i).to_owned();
            proof {
                lemma_first_break_at(tail, i - from);
                assert(tail.skip(i - from + 1) =~= text@.skip(i + 1));
                assert(line@ == tail.take(i - from));
            }
            lines.push(line);
            from = i + 1;
            assert(before.push(line@) + lines_of(text@.skip(from as int)) =~= before + (seq![
                line@,
            ] + lines_of(text@.skip(from as int))));
        } else {
            assert(is_single_line(text@.subrange(from as int, i + 1))) by {
                let grown = text@.subrange(from as int, i + 1);
                assert forall|k: int| 0 <= k < grown.len() implies #[trigger] grown[k]
                    != line_break() by {
                    if k < i - from {
                        assert(grown[k] == text@.subrange(from as int, i as int)[k]);
                    }
                }
            }
        }
        i = i + 1;
    }
    if from < n {
        let line = text.substring_char(from, n).to_owned();
        proof {
            lemma_first_break_at(text@.skip(from as int), n - from);
        }
        lines.push(line);
    }
    lines
}

} // verus!
