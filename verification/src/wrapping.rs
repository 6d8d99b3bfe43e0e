//! Splitting text into lines and wrapping it to a width for the transcript.

use vstd::prelude::*;
use crate::parse::find_char;
use crate::parse::lemma_find_char_at;
use crate::parse::lemma_find_char_bounds;

verus! {

/// The text of each line.
pub open spec fn line_texts(lines: Seq<String>) -> Seq<Seq<char>> {
    lines.map_values(|l: String| l@)
}

/// A line without the `\r` that ends it, if one does.
pub open spec fn without_cr(line: Seq<char>) -> Seq<char> {
    if line.len() > 0 && line.last() == '\r' {
        line.drop_last()
    } else {
        line
    }
}

/// The lines of `s` as `str::lines` gives them: `s` split at each `\n`, a
/// `\r` right before a `\n` dropped, and no line after a final `\n`.
pub open spec fn text_lines(s: Seq<char>) -> Seq<Seq<char>>
    decreases s.len(),
{
    if s.len() == 0 {
        Seq::empty()
    } else {
        match find_char(s, '\n') {
            Some(i) => {
                proof {
                    lemma_find_char_bounds(s, '\n');
                }
                seq![without_cr(s.take(i))] + text_lines(s.skip(i + 1))
            },
            None => seq![s],
        }
    }
}

proof fn lemma_text_lines_split(s: Seq<char>, i: int)
    requires
        0 <= i < s.len(),
        s[i] == '\n',
        forall|j: int| 0 <= j < i ==> s[j] != '\n',
    ensures
        text_lines(s) == seq![without_cr(s.take(i))] + text_lines(s.skip(i + 1)),
{
    lemma_find_char_at(s, '\n', i);
}

proof fn lemma_text_lines_last(s: Seq<char>)
    requires
        s.len() > 0,
        forall|j: int| 0 <= j < s.len() ==> s[j] != '\n',
    ensures
        text_lines(s) == seq![s],
{
    lemma_find_char_at(s, '\n', s.len() as int);
}

/// The lines of `text`, as `str::lines` gives them.
pub fn split_lines(text: &str) -> (res: Vec<String>)
    ensures
        line_texts(res@) == text_lines(text@),
{
    let n = text.unicode_len();
    let mut out: Vec<String> = Vec::new();
    let mut start: usize = 0;
    let mut i: usize = 0;
    proof {
        assert(text@.skip(0) =~= text@);
        assert(line_texts(out@) + text_lines(text@) =~= text_lines(text@));
    }
    while i < n
        invariant
            n == text@.len(),
            start <= i <= n,
            forall|j: int| start <= j < i ==> text@[j] != '\n',
            text_lines(text@) == line_texts(out@) + text_lines(text@.skip(start as int)),
        decreases n - i,
    {
        if text.get_char(i) == '\n' {
            let end = if i > start && text.get_char(i - 1) == '\r' { i - 1 } else { i };
            let line = text.substring_char(start, end);
            proof {
                let s = text@.skip(start as int);
                let k = i - start;
                assert forall|j: int| 0 <= j < k implies s[j] != '\n' by {
                    assert(s[j] == text@[start + j]);
                }
                lemma_text_lines_split(s, k as int);
                assert(s.take(k as int) =~= text@.subrange(start as int, i as int));
                assert(without_cr(s.take(k as int)) =~= text@.subrange(start as int, end as int));
                assert(s.skip(k + 1) =~= text@.skip(i + 1));
            }
            let ghost before = out@;
            out.push(String::from_str(line));
            proof {
                assert(line_texts(out@) =~= line_texts(before).push(line@));
                assert(line_texts(out@) + text_lines(text@.skip(i + 1)) =~= line_texts(before) + (
                seq![line@] + text_lines(text@.skip(i + 1))));
            }
            start = i + 1;
        }
        i = i + 1;
    }
    if start < n {
        let ghost before = out@;
        let last = text.substring_char(start, n);
        out.push(String::from_str(last));
        proof {
            let s = text@.skip(start as int);
            assert forall|j: int| 0 <= j < s.len() implies s[j] != '\n' by {
                assert(s[j] == text@[start + j]);
            }
            lemma_text_lines_last(s);
            assert(last@ =~= s);
            assert(line_texts(out@) =~= line_texts(before) + seq![s]);
        }
    } else {
        proof {
            assert(text@.skip(start as int) =~= Seq::<char>::empty());
            assert(line_texts(out@) + Seq::<Seq<char>>::empty() =~= line_texts(out@));
        }
    }
    out
}

/// The lines `textwrap::wrap` gives for `text` at `width` columns, the
/// first indented by `initial_indent` and the others by
/// `subsequent_indent`.
pub uninterp spec fn wrapped_lines(
    text: Seq<char>,
    width: usize,
    initial_indent: Seq<char>,
    subsequent_indent: Seq<char>,
) -> Seq<Seq<char>>;

/// Calls `textwrap::wrap` with `Options::new(width)` and the two indents,
/// and takes each line as a `String`. Claimed: the lines depend on these
/// four arguments alone.
#[verifier::external_body]
pub(crate) fn wrap_text(text: &str, width: usize, initial_indent: &str, subsequent_indent: &str) -> (res: Vec<String>)
    ensures
        line_texts(res@) == wrapped_lines(text@, width, initial_indent@, subsequent_indent@),
{
    textwrap::wrap(text, textwrap::Options::new(width).initial_indent(initial_indent).subsequent_indent(subsequent_indent))
        .into_iter()
        .map(|line| line.into_owned())
        .collect()
}

/// The width text is wrapped at: at least one column.
pub open spec fn wrap_width(width: usize) -> usize {
    if width == 0 { 1 } else { width }
}

/// One source line as shown: an empty one stays one empty line, any other
/// is wrapped with `indent` before its first line.
pub open spec fn shown_source_line(line: Seq<char>, width: usize, indent: Seq<char>, subsequent_indent: Seq<char>) -> Seq<Seq<char>> {
    if line.len() == 0 {
        seq![Seq::<char>::empty()]
    } else {
        wrapped_lines(line, wrap_width(width), indent, subsequent_indent)
    }
}

/// The source lines as shown, the first after `initial_indent` and the
/// others after `subsequent_indent`.
pub open spec fn shown_source_lines(
    lines: Seq<Seq<char>>,
    width: usize,
    initial_indent: Seq<char>,
    subsequent_indent: Seq<char>,
) -> Seq<Seq<char>>
    decreases lines.len(),
{
    if lines.len() == 0 {
        Seq::empty()
    } else {
        shown_source_lines(lines.drop_last(), width, initial_indent, subsequent_indent)
            + shown_source_line(
                lines.last(),
                width,
                if lines.len() == 1 { initial_indent } else { subsequent_indent },
                subsequent_indent,
            )
    }
}

/// `text` as shown in the transcript: each of its lines wrapped on its own.
pub open spec fn shown_text(text: Seq<char>, width: usize, initial_indent: Seq<char>, subsequent_indent: Seq<char>) -> Seq<Seq<char>> {
    shown_source_lines(text_lines(text), width, initial_indent, subsequent_indent)
}

/// Appends `text` to `lines` as the transcript shows it: line by line, an
/// empty line kept as it is and any other wrapped at `width` (at least
/// one column), the first line of `text` after `initial_indent` and every
/// other after `subsequent_indent`.
pub fn push_wrapped(lines: &mut Vec<String>, text: &str, width: usize, initial_indent: &str, subsequent_indent: &str)
    ensures
        line_texts(final(lines)@) == line_texts(old(lines)@) + shown_text(text@, width, initial_indent@, subsequent_indent@),
{
    let w: usize = if width == 0 { 1 } else { width };
    let source = split_lines(text);
    let ghost src = line_texts(source@);
    let mut k: usize = 0;
    while k < source.len()
        invariant
            k <= source@.len(),
            w == wrap_width(width),
            src == text_lines(text@),
            src == line_texts(source@),
            line_texts(lines@) == line_texts(old(lines)@) + shown_source_lines(src.take(k as int), width, initial_indent@, subsequent_indent@),
        decreases source@.len() - k,
    {
        let line = source[k].as_str();
        let indent = if k == 0 { initial_indent } else { subsequent_indent };
        let ghost before = line_texts(lines@);
        if line.unicode_len() == 0 {
            lines.push(String::new());
            proof {
                assert(line_texts(lines@) =~= before + seq![Seq::<char>::empty()]);
            }
        } else {
            let wrapped = wrap_text(line, w, indent, subsequent_indent);
            let mut m: usize = 0;
            while m < wrapped.len()
                invariant
                    m <= wrapped@.len(),
                    line_texts(lines@) == before + line_texts(wrapped@).take(m as int),
                decreases wrapped@.len() - m,
            {
                let ghost mid = line_texts(lines@);
                lines.push(wrapped[m].clone());
                proof {
                    assert(line_texts(wrapped@).take(m + 1) =~= line_texts(wrapped@).take(m as int).push(wrapped@[m as int]@));
                    assert(line_texts(lines@) =~= mid.push(wrapped@[m as int]@));
                }
                m = m + 1;
            }
            proof {
                assert(line_texts(wrapped@).take(wrapped@.len() as int) =~= line_texts(wrapped@));
            }
        }
        proof {
            let t = src.take(k + 1);
            assert(t.drop_last() =~= src.take(k as int));
            assert(t.last() == src[k as int]);
            assert(src[k as int] == source@[k as int]@);
            assert(line_texts(lines@) =~= line_texts(old(lines)@) + shown_source_lines(t, width, initial_indent@, subsequent_indent@));
        }
        k = k + 1;
    }
    proof {
        assert(src.take(source@.len() as int) =~= src);
    }
}

} // verus!
