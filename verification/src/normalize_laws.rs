//! What holds of normalization whatever the text: it is idempotent, and a text
//! made of blank lines normalizes to nothing.

use crate::chars::is_whitespace;
use crate::normalize::{
    first_line_len, join_lines, kept, lemma_first_line_found, lemma_kept_push, normalized,
    split_lines, trim_end,
};
use vstd::prelude::*;

verus! {

/// A line proper: it holds no line feed.
pub open spec fn no_line_feed(line: Seq<char>) -> bool {
    forall|k: int| 0 <= k < line.len() ==> line[k] != '\n'
}

/// A line that normalization leaves as it is: not empty, without a line feed,
/// and not ending in whitespace.
pub open spec fn settled(line: Seq<char>) -> bool {
    line.len() > 0 && no_line_feed(line) && !is_whitespace(line.last())
}

/// A line made of whitespace alone, the empty line among them.
pub open spec fn blank(line: Seq<char>) -> bool {
    forall|k: int| 0 <= k < line.len() ==> is_whitespace(line[k])
}

/// The first line ends inside the text, holds no line feed, and is followed by
/// one unless the text ends there.
pub proof fn lemma_first_line_bounds(s: Seq<char>)
    ensures
        first_line_len(s) <= s.len(),
        forall|k: int| 0 <= k < first_line_len(s) ==> s[k] != '\n',
        first_line_len(s) < s.len() ==> s[first_line_len(s) as int] == '\n',
    decreases s.len(),
{
    if !(s.len() == 0 || s[0] == '\n') {
        let rest = s.skip(1);
        lemma_first_line_bounds(rest);
        assert forall|k: int| 0 <= k < first_line_len(s) implies s[k] != '\n' by {
            if k > 0 {
                assert(s[k] == rest[k - 1]);
            }
        }
        if first_line_len(s) < s.len() {
            assert(s[first_line_len(s) as int] == rest[first_line_len(rest) as int]);
        }
    }
}

/// A text without a line feed is its own single line.
pub proof fn lemma_split_single(line: Seq<char>)
    requires
        no_line_feed(line),
    ensures
        split_lines(line) == seq![line],
{
    lemma_first_line_found(line, line.len() as int);
}

/// No line of a text holds a line feed.
pub proof fn lemma_split_lines_no_line_feed(s: Seq<char>)
    ensures
        split_lines(s).len() > 0,
        forall|i: int| 0 <= i < split_lines(s).len() ==> no_line_feed(#[trigger] split_lines(s)[i]),
    decreases s.len(),
{
    lemma_first_line_bounds(s);
    let n = first_line_len(s) as int;
    if n < s.len() {
        let tail = split_lines(s.skip(n + 1));
        lemma_split_lines_no_line_feed(s.skip(n + 1));
        assert forall|i: int| 0 <= i < split_lines(s).len() implies no_line_feed(
            #[trigger] split_lines(s)[i],
        ) by {
            if i > 0 {
                assert(split_lines(s)[i] == tail[i - 1]);
            }
        }
    }
}

/// A text followed by a line feed and one more line has the lines of the text
/// and then that line.
pub proof fn lemma_split_append_line(a: Seq<char>, line: Seq<char>)
    requires
        no_line_feed(line),
    ensures
        split_lines(a + seq!['\n'] + line) == split_lines(a).push(line),
    decreases a.len(),
{
    let whole = a + seq!['\n'] + line;
    lemma_first_line_bounds(a);
    let n = first_line_len(a) as int;
    assert forall|k: int| 0 <= k < n implies whole[k] != '\n' by {
        assert(whole[k] == a[k]);
    }
    assert(whole[n] == '\n') by {
        if n < a.len() {
            assert(whole[n] == a[n]);
        }
    }
    lemma_first_line_found(whole, n);
    if n < a.len() {
        let tail = split_lines(a.skip(n + 1));
        assert(whole.take(n) =~= a.take(n));
        assert(whole.skip(n + 1) =~= a.skip(n + 1) + seq!['\n'] + line);
        lemma_split_append_line(a.skip(n + 1), line);
        assert(seq![a.take(n)] + tail.push(line) =~= (seq![a.take(n)] + tail).push(line));
    } else {
        assert(whole.take(n) =~= a);
        assert(whole.skip(n + 1) =~= line);
        lemma_split_single(line);
        assert(seq![a] + seq![line] =~= seq![a].push(line));
    }
}

/// Splitting undoes joining, where there is a line to join and no line holds a
/// line feed.
pub proof fn lemma_split_join(lines: Seq<Seq<char>>)
    requires
        lines.len() > 0,
        forall|i: int| 0 <= i < lines.len() ==> no_line_feed(#[trigger] lines[i]),
    ensures
        split_lines(join_lines(lines)) == lines,
    decreases lines.len(),
{
    if lines.len() == 1 {
        lemma_split_single(lines[0]);
        assert(seq![lines[0]] =~= lines);
    } else {
        let front = lines.drop_last();
        lemma_split_join(front);
        lemma_split_append_line(join_lines(front), lines.last());
        assert(front.push(lines.last()) =~= lines);
    }
}

/// Trimming keeps a prefix of the line, one that does not end in whitespace,
/// and takes away nothing but whitespace.
pub proof fn lemma_trim_end_is_prefix(line: Seq<char>)
    ensures
        trim_end(line).len() <= line.len(),
        trim_end(line) == line.take(trim_end(line).len() as int),
        trim_end(line).len() > 0 ==> !is_whitespace(trim_end(line).last()),
        forall|k: int| trim_end(line).len() <= k < line.len() ==> is_whitespace(line[k]),
    decreases line.len(),
{
    if line.len() > 0 && is_whitespace(line.last()) {
        let front = line.drop_last();
        lemma_trim_end_is_prefix(front);
        assert(front.take(trim_end(front).len() as int) =~= line.take(trim_end(line).len() as int));
        assert forall|k: int| trim_end(line).len() <= k < line.len() implies is_whitespace(
            line[k],
        ) by {
            if k < front.len() {
                assert(line[k] == front[k]);
            }
        }
    } else {
        assert(line.take(line.len() as int) =~= line);
    }
}

/// Nothing is left of a blank line.
pub proof fn lemma_trim_end_blank(line: Seq<char>)
    requires
        blank(line),
    ensures
        trim_end(line).len() == 0,
    decreases line.len(),
{
    if line.len() > 0 {
        lemma_trim_end_blank(line.drop_last());
    }
}

/// No lines, none kept.
pub proof fn lemma_kept_empty()
    ensures
        kept(Seq::<Seq<char>>::empty()) == Seq::<Seq<char>>::empty(),
{
    reveal(Seq::filter);
    assert(kept(Seq::<Seq<char>>::empty()) =~= Seq::<Seq<char>>::empty());
}

/// Every kept line is settled, where the lines came from splitting a text.
pub proof fn lemma_kept_settled(lines: Seq<Seq<char>>)
    requires
        forall|i: int| 0 <= i < lines.len() ==> no_line_feed(#[trigger] lines[i]),
    ensures
        forall|i: int| 0 <= i < kept(lines).len() ==> settled(#[trigger] kept(lines)[i]),
    decreases lines.len(),
{
    if lines.len() == 0 {
        assert(lines =~= Seq::<Seq<char>>::empty());
        lemma_kept_empty();
    } else {
        let front = lines.drop_last();
        let last = lines.last();
        assert(front.push(last) =~= lines);
        lemma_kept_settled(front);
        lemma_kept_push(front, last);
        lemma_trim_end_is_prefix(last);
        assert(no_line_feed(last));
    }
}

/// Settled lines are all kept, unchanged.
pub proof fn lemma_kept_fixed(lines: Seq<Seq<char>>)
    requires
        forall|i: int| 0 <= i < lines.len() ==> settled(#[trigger] lines[i]),
    ensures
        kept(lines) == lines,
    decreases lines.len(),
{
    if lines.len() == 0 {
        assert(lines =~= Seq::<Seq<char>>::empty());
        lemma_kept_empty();
    } else {
        let front = lines.drop_last();
        let last = lines.last();
        assert(front.push(last) =~= lines);
        lemma_kept_fixed(front);
        lemma_kept_push(front, last);
        assert(settled(last));
    }
}

/// Blank lines are all dropped.
pub proof fn lemma_kept_blank(lines: Seq<Seq<char>>)
    requires
        forall|i: int| 0 <= i < lines.len() ==> blank(#[trigger] lines[i]),
    ensures
        kept(lines).len() == 0,
    decreases lines.len(),
{
    if lines.len() == 0 {
        assert(lines =~= Seq::<Seq<char>>::empty());
        lemma_kept_empty();
    } else {
        let front = lines.drop_last();
        let last = lines.last();
        assert(front.push(last) =~= lines);
        lemma_kept_blank(front);
        lemma_kept_push(front, last);
        lemma_trim_end_blank(last);
    }
}

/// Normalizing twice gives what normalizing once gives.
pub proof fn lemma_normalized_idempotent(text: Seq<char>)
    ensures
        normalized(normalized(text)) == normalized(text),
{
    let lines = kept(split_lines(text));
    lemma_split_lines_no_line_feed(text);
    lemma_kept_settled(split_lines(text));
    if lines.len() == 0 {
        let nothing = Seq::<char>::empty();
        assert(normalized(text) == nothing);
        lemma_split_single(nothing);
        assert(blank(nothing));
        lemma_kept_blank(seq![nothing]);
    } else {
        lemma_split_join(lines);
        lemma_kept_fixed(lines);
    }
}

/// A text whose every line is empty or whitespace normalizes to the empty text.
pub proof fn lemma_blank_text_normalized(text: Seq<char>)
    requires
        forall|i: int| 0 <= i < split_lines(text).len() ==> blank(#[trigger] split_lines(text)[i]),
    ensures
        normalized(text) == Seq::<char>::empty(),
{
    lemma_kept_blank(split_lines(text));
}

} // verus!
