//! The body of a block: a file's text with trailing whitespace stripped from
//! every line and the lines that are then empty left out.

use crate::chars::{char_is_whitespace, chars_of, is_whitespace, push_range};
use vstd::prelude::*;

verus! {

/// The number of characters before the first line feed of `s`, or the length
/// of `s` where it holds none.
pub open spec fn first_line_len(s: Seq<char>) -> nat
    decreases s.len(),
{
    if s.len() == 0 || s[0] == '\n' {
        0
    } else {
        1 + first_line_len(s.skip(1))
    }
}

/// The lines of `s`: the pieces between its line feeds. A text without a line
/// feed is one line; a text that ends in a line feed has an empty last line.
pub open spec fn split_lines(s: Seq<char>) -> Seq<Seq<char>>
    decreases s.len(),
{
    let n = first_line_len(s) as int;
    if n >= s.len() {
        seq![s]
    } else {
        seq![s.take(n)] + split_lines(s.skip(n + 1))
    }
}

/// `line` without the whitespace at its end.
pub open spec fn trim_end(line: Seq<char>) -> Seq<char>
    decreases line.len(),
{
    if line.len() > 0 && is_whitespace(line.last()) {
        trim_end(line.drop_last())
    } else {
        line
    }
}

/// The lines joined by single line feeds.
pub open spec fn join_lines(lines: Seq<Seq<char>>) -> Seq<char>
    decreases lines.len(),
{
    if lines.len() == 0 {
        Seq::empty()
    } else if lines.len() == 1 {
        lines[0]
    } else {
        join_lines(lines.drop_last()) + seq!['\n'] + lines.last()
    }
}

/// Trimming, as a function on lines.
pub open spec fn trimmer() -> spec_fn(Seq<char>) -> Seq<char> {
    |line: Seq<char>| trim_end(line)
}

/// The test for a line that holds something.
pub open spec fn nonempty() -> spec_fn(Seq<char>) -> bool {
    |line: Seq<char>| line.len() > 0
}

/// The lines that survive: each trimmed at its end, the empty ones dropped.
pub open spec fn kept(lines: Seq<Seq<char>>) -> Seq<Seq<char>> {
    lines.map_values(trimmer()).filter(nonempty())
}

/// The normalized form of `text`.
pub open spec fn normalized(text: Seq<char>) -> Seq<char> {
    join_lines(kept(split_lines(text)))
}

/// A stretch of `n` characters without a line feed, followed by a line feed or
/// by the end, is the first line.
pub proof fn lemma_first_line_found(s: Seq<char>, n: int)
    requires
        0 <= n <= s.len(),
        forall|k: int| 0 <= k < n ==> s[k] != '\n',
        n == s.len() || s[n] == '\n',
    ensures
        first_line_len(s) == n,
    decreases n,
{
    if n > 0 {
        let rest = s.skip(1);
        assert forall|k: int| 0 <= k < n - 1 implies rest[k] != '\n' by {
            assert(rest[k] == s[k + 1]);
        }
        lemma_first_line_found(rest, n - 1);
    }
}

/// One more line changes the kept lines only at their end.
pub proof fn lemma_kept_push(lines: Seq<Seq<char>>, line: Seq<char>)
    ensures
        kept(lines.push(line)) == if trim_end(line).len() > 0 {
            kept(lines).push(trim_end(line))
        } else {
            kept(lines)
        },
{
    let mapped = lines.map_values(trimmer());
    assert(lines.push(line).map_values(trimmer()) =~= mapped.push(trim_end(line)));
    mapped.lemma_filter_push(trim_end(line), nonempty());
}

/// Trims the end of every line of `text`, drops the lines that are then empty
/// and joins the others with single line feeds.
pub fn normalize(text: &str) -> (body: String)
    ensures
        body@ == normalized(text@),
{
    let chars = chars_of(text);
    let n = chars.len();
    let mut body = String::new();
    let mut any = false;
    let mut start: usize = 0;
    let mut finished = false;
    let ghost mut done: Seq<Seq<char>> = Seq::empty();
    proof {
        assert(chars@.skip(0) =~= chars@);
        assert(done + split_lines(chars@) =~= split_lines(chars@));
        reveal(Seq::filter);
        assert(kept(done) =~= Seq::<Seq<char>>::empty());
    }
    while !finished
        invariant
            n == chars@.len(),
            start <= n,
            finished ==> split_lines(chars@) == done,
            !finished ==> split_lines(chars@) == done + split_lines(chars@.skip(start as int)),
            body@ == join_lines(kept(done)),
            any == (kept(done).len() > 0),
        decreases (if finished { 0 } else { n - start + 1 }),
    {
        let mut end: usize = start;
        while end < n && chars[end] != '\n'
            invariant
                n == chars@.len(),
                start <= end <= n,
                forall|k: int| start <= k < end ==> chars@[k] != '\n',
            decreases n - end,
        {
            end += 1;
        }
        let ghost rest = chars@.skip(start as int);
        let ghost line = chars@.subrange(start as int, end as int);
        proof {
            assert forall|k: int| 0 <= k < end - start implies rest[k] != '\n' by {
                assert(rest[k] == chars@[start + k]);
            }
            lemma_first_line_found(rest, end - start);
        }
        let mut stop: usize = end;
        while stop > start && char_is_whitespace(chars[stop - 1])
            invariant
                start <= stop <= end <= n,
                n == chars@.len(),
                trim_end(line) == trim_end(chars@.subrange(start as int, stop as int)),
            decreases stop,
        {
            proof {
                let cur = chars@.subrange(start as int, stop as int);
                assert(cur.last() == chars@[stop - 1]);
                assert(cur.drop_last() =~= chars@.subrange(start as int, stop - 1));
            }
            stop -= 1;
        }
        proof {
            let cur = chars@.subrange(start as int, stop as int);
            if stop > start {
                assert(cur.last() == chars@[stop - 1]);
            }
            assert(trim_end(line) == cur);
            lemma_kept_push(done, line);
        }
        if stop > start {
            if any {
                body.push('\n');
            }
            push_range(&mut body, &chars, start, stop);
            any = true;
            proof {
                let next = kept(done).push(trim_end(line));
                assert(next.drop_last() =~= kept(done));
            }
        }
        proof {
            if end < n {
                assert(rest.take(end - start) =~= line);
                assert(rest.skip(end - start + 1) =~= chars@.skip(end + 1));
                assert(done + (seq![line] + split_lines(chars@.skip(end + 1))) =~= done.push(line)
                    + split_lines(chars@.skip(end + 1)));
            } else {
                assert(rest =~= line);
                assert(done + seq![line] =~= done.push(line));
            }
            done = done.push(line);
        }
        if end < n {
            start = end + 1;
        } else {
            finished = true;
        }
    }
    body
}

} // verus!
