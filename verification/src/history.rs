//! The history recording rule.
//!
//! A non-blank submitted line is appended to the history after its
//! pipeline has run, in submission order, whatever became of its
//! spawns; a blank line leaves no entry, and neither does a line whose
//! walk was stopped by `exit` (the shell leaves the loop before any
//! history write for that line).
use vstd::prelude::*;

use crate::text::{copy_bytes, spec_trim, trim};

verus! {

/// Record one executed line: append it to the history exactly when it
/// is non-blank and `exit` did not stop its walk.
pub fn record_after_line(history: &mut Vec<Vec<u8>>, line: &Vec<u8>, exited: bool)
    ensures
        (exited || spec_trim(line@).len() == 0) ==> final(history).deep_view() == old(
            history,
        ).deep_view(),
        (!exited && spec_trim(line@).len() > 0) ==> final(history).deep_view() == old(
            history,
        ).deep_view().push(line@),
{
    let trimmed = trim(line);
    if !exited && trimmed.len() > 0 {
        let ghost old_dv = history.deep_view();
        let entry = copy_bytes(line);
        history.push(entry);
        proof {
            assert(history.deep_view() =~~= old_dv.push(line@));
        }
    }
}

} // verus!
