//! Trimming of response payloads: long stack traces and long strings, and
//! the choices that govern them.

use vstd::prelude::*;

use crate::text::{
    chars_of, decimal, decimal_chars, join_lines, lines_of, push_all, split_chars, split_on,
    string_of, strip_cr, strip_cr_chars, views,
};

verus! {

/// Lines kept of a stack trace unless the full trace is asked for.
pub const DEFAULT_STACK_TRACE_LINES: usize = 10;

/// Characters kept of a long string field.
pub const MAX_STRING_LENGTH: usize = 100;

/// The note that ends a truncated stack trace, for `n` lines left out:
/// a new line, then `... (n more lines)`.
pub open spec fn more_lines_note(n: nat) -> Seq<char> {
    seq!['\n', '.', '.', '.', ' ', '('] + decimal(n) + seq![
        ' ',
        'm',
        'o',
        'r',
        'e',
        ' ',
        'l',
        'i',
        'n',
        'e',
        's',
        ')',
    ]
}

/// A stack trace cut to its first `max_lines` lines, followed by a note of
/// how many were left out; unchanged if it has no more lines than that.
pub open spec fn truncated_stack(s: Seq<char>, max_lines: nat) -> Seq<char> {
    let lines = lines_of(s);
    if lines.len() <= max_lines {
        s
    } else {
        join_lines(lines.take(max_lines as int)) + more_lines_note(
            (lines.len() - max_lines) as nat,
        )
    }
}

fn push_more_lines_note(out: &mut Vec<char>, n: u64)
    ensures
        final(out)@ == old(out)@ + more_lines_note(n as nat),
{
    let ghost start = out@;
    out.push('\n');
    out.push('.');
    out.push('.');
    out.push('.');
    out.push(' ');
    out.push('(');
    let digits = decimal_chars(n);
    push_all(out, &digits);
    out.push(' ');
    out.push('m');
    out.push('o');
    out.push('r');
    out.push('e');
    out.push(' ');
    out.push('l');
    out.push('i');
    out.push('n');
    out.push('e');
    out.push('s');
    out.push(')');
    assert(out@ =~= start + more_lines_note(n as nat));
}

/// The number of lines of the text split into `parts` at `\n`.
proof fn lemma_line_count(s: Seq<char>)
    ensures
        split_on(s, '\n').len() >= 1,
        lines_of(s).len() == if split_on(s, '\n').last().len() == 0 {
            split_on(s, '\n').len() - 1
        } else {
            split_on(s, '\n').len() as int
        },
        forall|i: int|
            0 <= i < split_on(s, '\n').len() - 1 ==> #[trigger] lines_of(s)[i] == strip_cr(
                split_on(s, '\n')[i],
            ),
    decreases s.len(),
{
    if s.len() > 0 {
        lemma_line_count(s.drop_last());
    }
}

/// Cuts a stack trace to its first `max_lines` lines, and notes how many
/// more there were.
pub fn truncate_stack_trace(stack: &str, max_lines: usize) -> (r: String)
    ensures
        r@ == truncated_stack(stack@, max_lines as nat),
{
    let v = chars_of(stack);
    let parts = split_chars(&v, '\n');
    proof {
        lemma_line_count(v@);
    }
    let nparts = parts.len();
    assert(views(parts@)[nparts - 1] == parts@[nparts - 1]@);
    let count: usize = if parts[nparts - 1].len() == 0 {
        nparts - 1
    } else {
        nparts
    };
    let ghost lines = lines_of(v@);
    if count <= max_lines {
        return stack.to_owned();
    }
    let mut out: Vec<char> = Vec::new();
    let mut i: usize = 0;
    assert(lines.take(0) =~= Seq::<Seq<char>>::empty());
    while i < max_lines
        invariant
            max_lines < count <= nparts == parts@.len(),
            lines == lines_of(v@),
            lines.len() == count,
            views(parts@) == split_on(v@, '\n'),
            forall|k: int| 0 <= k < nparts - 1 ==> #[trigger] lines[k] == strip_cr(
                split_on(v@, '\n')[k],
            ),
            i <= max_lines,
            out@ == join_lines(lines.take(i as int)),
        decreases max_lines - i,
    {
        let line = strip_cr_chars(&parts[i]);
        assert(views(parts@)[i as int] == parts@[i as int]@);
        assert(line@ == lines[i as int]);
        assert(lines.take(i + 1).drop_last() =~= lines.take(i as int));
        if i > 0 {
            out.push('\n');
            push_all(&mut out, &line);
        } else {
            push_all(&mut out, &line);
            assert(out@ =~= line@);
        }
        i = i + 1;
    }
    push_more_lines_note(&mut out, (count - max_lines) as u64);
    string_of(&out)
}

/// A string cut to its first `max_len` characters and marked with `...`;
/// unchanged if it is no longer than that.
pub open spec fn truncated_string(s: Seq<char>, max_len: nat) -> Seq<char> {
    if s.len() <= max_len {
        s
    } else {
        s.take(max_len as int) + seq!['.', '.', '.']
    }
}

/// Cuts a long string to `max_len` characters followed by `...`.
pub fn truncate_long_string(s: &str, max_len: usize) -> (r: String)
    ensures
        r@ == truncated_string(s@, max_len as nat),
{
    let v = chars_of(s);
    if v.len() <= max_len {
        return s.to_owned();
    }
    let mut out: Vec<char> = Vec::new();
    let mut i: usize = 0;
    while i < max_len
        invariant
            max_len < v@.len(),
            i <= max_len,
            out@ == v@.take(i as int),
        decreases max_len - i,
    {
        out.push(v[i]);
        i = i + 1;
        assert(out@ =~= v@.take(i as int));
    }
    out.push('.');
    out.push('.');
    out.push('.');
    assert(out@ =~= v@.take(max_len as int) + seq!['.', '.', '.']);
    string_of(&out)
}

/// Whether stack traces are cut: unless the full trace was asked for.
pub fn should_truncate_stack_trace(full_stack_trace: Option<bool>) -> (r: bool)
    ensures
        r == !(full_stack_trace == Some(true)),
{
    match full_stack_trace {
        Some(full) => !full,
        None => true,
    }
}

/// The tag filter in force: the one given with the request, else the
/// configured one, else `*`.
pub fn extract_tag_filter<'a>(requested: Option<&'a str>, configured: Option<&'a str>) -> (r: &'a str)
    ensures
        r@ == match requested {
            Some(f) => f@,
            None => match configured {
                Some(f) => f@,
                None => "*"@,
            },
        },
{
    match requested {
        Some(f) => f,
        None => match configured {
            Some(f) => f,
            None => "*",
        },
    }
}

} // verus!
