//! Status lines printed to the terminal, with a coloured label.

use vstd::prelude::*;
use crate::text::push_str;

verus! {

/// The line for an informational message.
pub open spec fn info_line(msg: Seq<char>) -> Seq<char> {
    "\x1B[0;44m INFO \x1B[m "@ + msg
}

/// The line for an error message.
pub open spec fn error_line(msg: Seq<char>) -> Seq<char> {
    "\x1B[0;41m ERROR \x1B[m "@ + msg
}

/// The line for a success message.
pub open spec fn success_line(msg: Seq<char>) -> Seq<char> {
    "\x1B[0;30;42m SUCCESS \x1B[m "@ + msg
}

/// The line for a warning.
pub open spec fn warning_line(msg: Seq<char>) -> Seq<char> {
    "\x1B[0;30;43m WARN \x1B[m "@ + msg
}

fn labelled(label: &str, msg: &str) -> (res: String)
    ensures
        res@ == label@ + msg@,
{
    let mut res = String::new();
    push_str(&mut res, label);
    push_str(&mut res, msg);
    assert(res@ =~= label@ + msg@);
    res
}

/// The line that reports `msg` as information.
pub fn info(msg: &str) -> (res: String)
    ensures
        res@ == info_line(msg@),
{
    labelled("\x1B[0;44m INFO \x1B[m ", msg)
}

/// The line that reports `msg` as an error.
pub fn error(msg: &str) -> (res: String)
    ensures
        res@ == error_line(msg@),
{
    labelled("\x1B[0;41m ERROR \x1B[m ", msg)
}

/// The line that reports `msg` as a success.
pub fn success(msg: &str) -> (res: String)
    ensures
        res@ == success_line(msg@),
{
    labelled("\x1B[0;30;42m SUCCESS \x1B[m ", msg)
}

/// The line that reports `msg` as a warning.
pub fn warning(msg: &str) -> (res: String)
    ensures
        res@ == warning_line(msg@),
{
    labelled("\x1B[0;30;43m WARN \x1B[m ", msg)
}

} // verus!
