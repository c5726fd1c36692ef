//! The state as lines for a terminal.

use vstd::prelude::*;
use vstd::string::StringExecFns;
use crate::data::{roster_of, roster_view, ConnState, RosterEntry, RosterEntryView};
use crate::text::{bool_text, texts_view, truth};

verus! {

/// The line for one user: the name, and whether they are muted, deafened
/// and talking.
pub open spec fn status_line_of(e: RosterEntryView) -> Seq<char> {
    e.name + " : Mute("@ + bool_text(e.muted) + ") Deaf("@ + bool_text(e.deafened)
        + ") Talking("@ + bool_text(e.talking) + ")"@
}

/// Writes the line for one user.
pub fn status_line(e: &RosterEntry) -> (r: String)
    ensures
        r@ == status_line_of(e@),
{
    let mut line = e.name.clone();
    line.append(" : Mute(");
    line.append(truth(e.muted));
    line.append(") Deaf(");
    line.append(truth(e.deafened));
    line.append(") Talking(");
    line.append(truth(e.talking));
    line.append(")");
    line
}

/// Writes one line for every user in the channel, in the order in which the
/// users became known.
pub fn status_lines(state: &ConnState) -> (r: Vec<String>)
    ensures
        texts_view(r@) == roster_of(state@).map_values(|e: RosterEntryView| status_line_of(e)),
{
    let roster = state.roster();
    let mut lines: Vec<String> = Vec::new();
    let n = roster.len();
    let mut i: usize = 0;
    while i < n
        invariant
            n == roster@.len(),
            i <= n,
            lines@.len() == i,
            forall|k: int| 0 <= k < i ==> (#[trigger] lines@[k])@ == status_line_of(roster@[k]@),
        decreases n - i,
    {
        lines.push(status_line(&roster[i]));
        i += 1;
    }
    assert(texts_view(lines@) =~= roster_view(roster@).map_values(
        |e: RosterEntryView| status_line_of(e),
    ));
    lines
}

} // verus!
