//! The terms that a static scan of the sources refuses to find.

use vstd::prelude::*;

verus! {

// AC7-SCAN-EXEMPT-START
//
// The terms below are the definition of what the acceptance scan forbids;
// the scan skips the lines between START and END, so this item does not
// match itself.
/// The terms that must not appear in this code base: the terminal-injection
/// ioctl, the pseudo-terminal device directory and the `setterm` tool. Input
/// reaches a window only through the window system or tmux.
pub fn forbidden_terms() -> (terms: &'static [&'static str])
    ensures
        terms@.len() == 3,
        terms@[0]@ == "TIOCSTI"@,
        terms@[1]@ == "/dev/pts/"@,
        terms@[2]@ == "setterm"@,
{
    &["TIOCSTI", "/dev/pts/", "setterm"]
}
// AC7-SCAN-EXEMPT-END

} // verus!
