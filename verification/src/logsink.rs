//! The model of the append-only log a process is drained into.
//!
//! The sink receives one decoded output line at a time and appends it with
//! a single trailing newline.  `spec_rendered` is the whole file content
//! that results from a sequence of lines; `render_line` produces the exact
//! bytes appended for one line.

use vstd::prelude::*;
use crate::text::str_concat;

verus! {

/// One line as it stands in the file: the text followed by one newline.
pub open spec fn spec_line_ended(line: Seq<char>) -> Seq<char> {
    line.push('\n')
}

/// The content of a log file that received `lines`, in order.
pub open spec fn spec_rendered(lines: Seq<Seq<char>>) -> Seq<char>
    decreases lines.len(),
{
    if lines.len() == 0 {
        Seq::empty()
    } else {
        spec_line_ended(lines[0]) + spec_rendered(lines.drop_first())
    }
}

/// How often `c` occurs in `s`.
pub open spec fn count_char(s: Seq<char>, c: char) -> nat
    decreases s.len(),
{
    if s.len() == 0 {
        0
    } else {
        (if s[0] == c {
            1nat
        } else {
            0nat
        }) + count_char(s.drop_first(), c)
    }
}

/// The text appended to the log for one line: the line and a newline.
pub fn render_line(line: &str) -> (r: String)
    ensures
        r@ == spec_line_ended(line@),
{
    let r = str_concat(line, "\n");
    proof {
        reveal_strlit("\n");
        assert(r@ =~= line@.push('\n'));
    }
    r
}

proof fn lemma_count_char_concat(a: Seq<char>, b: Seq<char>, c: char)
    ensures
        count_char(a + b, c) == count_char(a, c) + count_char(b, c),
    decreases a.len(),
{
    if a.len() == 0 {
        assert(a + b =~= b);
    } else {
        assert((a + b)[0] == a[0]);
        assert((a + b).drop_first() =~= a.drop_first() + b);
        lemma_count_char_concat(a.drop_first(), b, c);
    }
}

proof fn lemma_count_char_line_ended(line: Seq<char>, c: char)
    requires
        count_char(line, c) == 0,
        c == '\n',
    ensures
        count_char(spec_line_ended(line), c) == 1,
{
    assert(spec_line_ended(line) =~= line + seq!['\n']);
    lemma_count_char_concat(line, seq!['\n'], c);
    assert(seq!['\n'].drop_first() =~= Seq::<char>::empty());
    assert(count_char(Seq::<char>::empty(), c) == 0);
    assert(count_char(seq!['\n'], c) == 1);
}

/// A completed drain of `n` newline-free lines leaves a file with exactly
/// `n` newline characters: one line terminator per line, none inside.
pub proof fn lemma_rendered_line_count(lines: Seq<Seq<char>>)
    requires
        forall|i: int| 0 <= i < lines.len() ==> count_char(#[trigger] lines[i], '\n') == 0,
    ensures
        count_char(spec_rendered(lines), '\n') == lines.len(),
    decreases lines.len(),
{
    if lines.len() > 0 {
        lemma_count_char_line_ended(lines[0], '\n');
        lemma_count_char_concat(spec_line_ended(lines[0]), spec_rendered(lines.drop_first()), '\n');
        assert(forall|i: int|
            0 <= i < lines.drop_first().len() ==> lines.drop_first()[i] == lines[i + 1]);
        lemma_rendered_line_count(lines.drop_first());
    }
}

} // verus!
