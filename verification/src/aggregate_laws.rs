//! What a whole run writes: one block for every selected file, in the order
//! of the walk, and nothing else.

use crate::aggregate::{AggregatorView, PhaseView, WalkEventView, failed};
use crate::block::file_output;
use crate::config::Selection;
use crate::error::Operation;
use vstd::prelude::*;
use vstd::utf8::valid_utf8;

verus! {

/// An entry of the walk: its path, whether it is a regular file, and the bytes
/// that reading it gives.
pub struct Entry {
    pub path: Seq<char>,
    pub is_file: bool,
    pub bytes: Seq<u8>,
}

/// The aggregator after a sequence of events.
pub open spec fn run(machine: AggregatorView, events: Seq<WalkEventView>) -> AggregatorView
    decreases events.len(),
{
    if events.len() == 0 {
        machine
    } else {
        run(machine, events.drop_last()).next(events.last())
    }
}

/// What is in the output file after a sequence of events.
pub open spec fn written(machine: AggregatorView, events: Seq<WalkEventView>) -> Seq<char>
    decreases events.len(),
{
    if events.len() == 0 {
        Seq::empty()
    } else {
        written(machine, events.drop_last()) + run(machine, events.drop_last()).emitted(
            events.last(),
        )
    }
}

/// The rule takes the entry: it is a regular file and its path is selected.
pub open spec fn taken(rule: Selection, entry: Entry) -> bool {
    entry.is_file && rule.takes(entry.path)
}

/// What one entry contributes to the output: its block if it is taken,
/// nothing otherwise.
pub open spec fn contribution(rule: Selection, entry: Entry) -> Seq<char> {
    if taken(rule, entry) {
        file_output(entry.path, entry.bytes)
    } else {
        Seq::empty()
    }
}

/// The output for a sequence of entries: their contributions, in order.
pub open spec fn expected_output(rule: Selection, entries: Seq<Entry>) -> Seq<char>
    decreases entries.len(),
{
    if entries.len() == 0 {
        Seq::empty()
    } else {
        expected_output(rule, entries.drop_last()) + contribution(rule, entries.last())
    }
}

/// The events of one entry, as a caller reports them who does what it is asked
/// and meets no failure: the entry and, where the entry is taken, its bytes
/// and the word that the block is written.
pub open spec fn entry_events(rule: Selection, entry: Entry) -> Seq<WalkEventView> {
    let found = WalkEventView::Entry { path: entry.path, is_file: entry.is_file };
    if taken(rule, entry) {
        seq![found, WalkEventView::Contents { bytes: entry.bytes }, WalkEventView::Written]
    } else {
        seq![found]
    }
}

/// The events of a walk over `entries`.
pub open spec fn walk_events(rule: Selection, entries: Seq<Entry>) -> Seq<WalkEventView>
    decreases entries.len(),
{
    if entries.len() == 0 {
        Seq::empty()
    } else {
        walk_events(rule, entries.drop_last()) + entry_events(rule, entries.last())
    }
}

/// The events of a whole run over `entries`: the output file opens, the walk
/// goes through, and ends.
pub open spec fn run_events(rule: Selection, entries: Seq<Entry>) -> Seq<WalkEventView> {
    seq![WalkEventView::Opened] + walk_events(rule, entries) + seq![WalkEventView::WalkEnded]
}

/// Every entry that is taken holds valid UTF-8.
pub open spec fn all_decodable(rule: Selection, entries: Seq<Entry>) -> bool {
    forall|i: int|
        0 <= i < entries.len() && taken(rule, #[trigger] entries[i]) ==> valid_utf8(entries[i].bytes)
}

/// One more event: one more step, and what that step emits.
pub proof fn lemma_run_push(machine: AggregatorView, events: Seq<WalkEventView>, event: WalkEventView)
    ensures
        run(machine, events.push(event)) == run(machine, events).next(event),
        written(machine, events.push(event)) == written(machine, events) + run(
            machine,
            events,
        ).emitted(event),
{
    assert(events.push(event).drop_last() =~= events);
}

/// Running through two sequences of events, one after the other, is running
/// through both at once.
pub proof fn lemma_run_concat(
    machine: AggregatorView,
    first: Seq<WalkEventView>,
    second: Seq<WalkEventView>,
)
    ensures
        run(machine, first + second) == run(run(machine, first), second),
        written(machine, first + second) == written(machine, first) + written(
            run(machine, first),
            second,
        ),
    decreases second.len(),
{
    if second.len() == 0 {
        assert(first + second =~= first);
        assert(written(machine, first) + Seq::<char>::empty() =~= written(machine, first));
    } else {
        let front = second.drop_last();
        lemma_run_concat(machine, first, front);
        assert((first + second).drop_last() =~= first + front);
        assert((first + second).last() == second.last());
        let middle = run(machine, first);
        assert(written(machine, first) + written(middle, front) + run(middle, front).emitted(
            second.last(),
        ) =~= written(machine, first) + (written(middle, front) + run(middle, front).emitted(
            second.last(),
        )));
    }
}

/// An aggregator that waits for an entry deals with it and waits for the next
/// one, and the output file has grown by what the entry contributes.
pub proof fn lemma_entry(machine: AggregatorView, entry: Entry)
    requires
        machine.phase is NextEntry,
        taken(machine.rule, entry) ==> valid_utf8(entry.bytes),
    ensures
        run(machine, entry_events(machine.rule, entry)) == machine,
        written(machine, entry_events(machine.rule, entry)) == contribution(machine.rule, entry),
{
    let nothing = Seq::<WalkEventView>::empty();
    let found = WalkEventView::Entry { path: entry.path, is_file: entry.is_file };
    lemma_run_push(machine, nothing, found);
    if taken(machine.rule, entry) {
        let read = WalkEventView::Contents { bytes: entry.bytes };
        lemma_run_push(machine, nothing.push(found), read);
        lemma_run_push(machine, nothing.push(found).push(read), WalkEventView::Written);
        assert(entry_events(machine.rule, entry) =~= nothing.push(found).push(read).push(
            WalkEventView::Written,
        ));
        assert(written(machine, entry_events(machine.rule, entry)) =~= contribution(
            machine.rule,
            entry,
        ));
    } else {
        assert(entry_events(machine.rule, entry) =~= nothing.push(found));
        assert(written(machine, entry_events(machine.rule, entry)) =~= contribution(
            machine.rule,
            entry,
        ));
    }
}

/// A walk over entries that can all be decoded leaves the aggregator waiting
/// for the next entry, and has written the expected output.
pub proof fn lemma_walk(machine: AggregatorView, entries: Seq<Entry>)
    requires
        machine.phase is NextEntry,
        all_decodable(machine.rule, entries),
    ensures
        run(machine, walk_events(machine.rule, entries)) == machine,
        written(machine, walk_events(machine.rule, entries)) == expected_output(
            machine.rule,
            entries,
        ),
    decreases entries.len(),
{
    if entries.len() > 0 {
        let front = entries.drop_last();
        assert forall|i: int| 0 <= i < front.len() && taken(machine.rule, #[trigger] front[i]) implies valid_utf8(
            front[i].bytes,
        ) by {
            assert(front[i] == entries[i]);
        }
        lemma_walk(machine, front);
        lemma_entry(machine, entries.last());
        lemma_run_concat(
            machine,
            walk_events(machine.rule, front),
            entry_events(machine.rule, entries.last()),
        );
    }
}

/// A whole run over entries that can all be decoded finishes, and the output
/// file then holds one block for each entry that is taken, in the order of the
/// walk, and nothing else.
pub proof fn lemma_run_writes_expected_output(machine: AggregatorView, entries: Seq<Entry>)
    requires
        machine.phase is OpenOutput,
        all_decodable(machine.rule, entries),
    ensures
        run(machine, run_events(machine.rule, entries)).phase is Finished,
        written(machine, run_events(machine.rule, entries)) == expected_output(machine.rule, entries),
{
    let rule = machine.rule;
    let opened = seq![WalkEventView::Opened];
    let ended = seq![WalkEventView::WalkEnded];
    let walking = AggregatorView { phase: PhaseView::NextEntry, ..machine };
    lemma_run_push(machine, Seq::empty(), WalkEventView::Opened);
    assert(opened =~= Seq::<WalkEventView>::empty().push(WalkEventView::Opened));
    assert(run(machine, opened) == walking);
    lemma_walk(walking, entries);
    lemma_run_concat(machine, opened, walk_events(rule, entries));
    lemma_run_push(walking, Seq::empty(), WalkEventView::WalkEnded);
    assert(ended =~= Seq::<WalkEventView>::empty().push(WalkEventView::WalkEnded));
    lemma_run_concat(machine, opened + walk_events(rule, entries), ended);
    assert(written(machine, run_events(rule, entries)) =~= expected_output(rule, entries));
}

/// A run that has ended stays as it is and writes nothing more, whatever is
/// reported to it.
pub proof fn lemma_final_phase_stays(machine: AggregatorView, events: Seq<WalkEventView>)
    requires
        machine.phase is Finished || machine.phase is Failed,
    ensures
        run(machine, events) == machine,
        written(machine, events) == Seq::<char>::empty(),
    decreases events.len(),
{
    if events.len() > 0 {
        lemma_final_phase_stays(machine, events.drop_last());
        assert(written(machine, events) =~= Seq::<char>::empty());
    }
}

/// A walk that meets a taken entry that cannot be decoded fails there, naming
/// that entry, and the output file holds the blocks of the entries before it:
/// what was written stays, and nothing is written after the failure.
pub proof fn lemma_walk_fails_at_undecodable(
    machine: AggregatorView,
    before: Seq<Entry>,
    bad: Entry,
    after: Seq<WalkEventView>,
)
    requires
        machine.phase is NextEntry,
        all_decodable(machine.rule, before),
        taken(machine.rule, bad),
        !valid_utf8(bad.bytes),
    ensures
        run(
            machine,
            walk_events(machine.rule, before) + entry_events(machine.rule, bad) + after,
        ).phase == failed(Operation::DecodeFile, bad.path),
        written(machine, walk_events(machine.rule, before) + entry_events(machine.rule, bad) + after)
            == expected_output(machine.rule, before),
{
    let rule = machine.rule;
    let nothing = Seq::<WalkEventView>::empty();
    let found = WalkEventView::Entry { path: bad.path, is_file: bad.is_file };
    let read = WalkEventView::Contents { bytes: bad.bytes };
    lemma_walk(machine, before);
    lemma_run_push(machine, nothing, found);
    lemma_run_push(machine, nothing.push(found), read);
    lemma_run_push(machine, nothing.push(found).push(read), WalkEventView::Written);
    assert(entry_events(rule, bad) =~= nothing.push(found).push(read).push(WalkEventView::Written));
    let stopped = run(machine, entry_events(rule, bad));
    assert(stopped.phase == failed(Operation::DecodeFile, bad.path));
    assert(written(machine, entry_events(rule, bad)) =~= Seq::<char>::empty());
    lemma_run_concat(machine, walk_events(rule, before), entry_events(rule, bad));
    lemma_final_phase_stays(stopped, after);
    lemma_run_concat(machine, walk_events(rule, before) + entry_events(rule, bad), after);
    assert(written(machine, walk_events(rule, before) + entry_events(rule, bad) + after)
        =~= expected_output(rule, before));
}

} // verus!
