//! Reading the output of external commands.

use vstd::prelude::*;
use crate::text::{contains, has_substring};

verus! {

/// Whether `search` occurs in `output`, the text that the program `grep`,
/// run with the pattern `search` on a command's output, printed (the lines
/// it kept; nothing when it rejected the pattern).
pub fn grep(output: &str, search: &str) -> (found: bool)
    ensures
        found == has_substring(output@, search@),
{
    contains(output, search)
}

} // verus!
