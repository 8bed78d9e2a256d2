//! The diagnostics decoder: from the log entries of an execution, each
//! already decoded where it is a diagnostic event, to the diagnostic lines
//! in the order in which they were emitted.

use vstd::prelude::*;
use crate::prestate::text_view;

verus! {

/// The views of log entries, one for one: the decoded text of a diagnostic
/// event, `None` for any other event.
pub open spec fn entries_view(entries: Seq<Option<String>>) -> Seq<Option<Seq<char>>> {
    Seq::new(entries.len(), |i: int| text_view(entries[i]))
}

/// The views of lines, one for one.
pub open spec fn lines_view(lines: Seq<String>) -> Seq<Seq<char>> {
    Seq::new(lines.len(), |i: int| lines[i]@)
}

/// The diagnostic lines among log entries: the decoded texts in the order
/// of the entries, the other entries left out.
pub open spec fn diagnostic_lines(entries: Seq<Option<Seq<char>>>) -> Seq<Seq<char>> {
    entries.filter_map(|entry: Option<Seq<char>>| entry)
}

/// Selects the diagnostic lines from the log entries of an execution.
///
/// `entries` holds one item per emitted log entry, in the order of
/// emission: the decoded text where the entry is a diagnostic event, `None`
/// where it is an ordinary event. Ordinary events are skipped without
/// notice.
pub fn decode_console_logs(entries: &Vec<Option<String>>) -> (r: Vec<String>)
    ensures
        lines_view(r@) == diagnostic_lines(entries_view(entries@)),
{
    let ghost all = entries_view(entries@);
    let ghost pick = |entry: Option<Seq<char>>| entry;
    let mut lines: Vec<String> = Vec::new();
    let mut i: usize = 0;
    assert(all.take(0) =~= Seq::<Option<Seq<char>>>::empty());
    assert(lines_view(lines@) =~= Seq::<Seq<char>>::empty());
    while i < entries.len()
        invariant
            i <= entries.len(),
            all == entries_view(entries@),
            pick == |entry: Option<Seq<char>>| entry,
            lines_view(lines@) == all.take(i as int).filter_map(pick),
        decreases entries.len() - i,
    {
        proof {
            all.lemma_filter_map_take_succ(pick, i as int);
        }
        let ghost before = lines_view(lines@);
        match &entries[i] {
            Some(text) => {
                let line = text.clone();
                lines.push(line);
                assert(lines_view(lines@) =~= before + seq![text@]);
            },
            None => {
                assert(before + Seq::<Seq<char>>::empty() =~= before);
            },
        }
        i += 1;
    }
    assert(all.take(entries.len() as int) =~= all);
    lines
}

/// Every diagnostic line is the text of a diagnostic event, and the lines
/// are as many as the diagnostic events.
pub proof fn law_one_line_per_diagnostic_event(entries: Seq<Option<Seq<char>>>)
    ensures
        forall|i: int|
            0 <= i < diagnostic_lines(entries).len() ==> entries.contains(
                Some(#[trigger] diagnostic_lines(entries)[i]),
            ),
        diagnostic_lines(entries).len() == entries.filter(|e: Option<Seq<char>>| e is Some).len(),
    decreases entries.len(),
{
    reveal(Seq::filter);
    let pick = |entry: Option<Seq<char>>| entry;
    let some = |e: Option<Seq<char>>| e is Some;
    if entries.len() > 0 {
        let init = entries.drop_last();
        law_one_line_per_diagnostic_event(init);
        assert forall|i: int| 0 <= i < diagnostic_lines(entries).len() implies entries.contains(
            Some(#[trigger] diagnostic_lines(entries)[i]),
        ) by {
            if i < diagnostic_lines(init).len() {
                let line = diagnostic_lines(init)[i];
                assert(init.contains(Some(line)));
                let k = choose|k: int| 0 <= k < init.len() && init[k] == Some(line);
                assert(entries[k] == Some(line));
            } else {
                assert(entries[entries.len() - 1] == entries.last());
            }
        }
    }
}

} // verus!
