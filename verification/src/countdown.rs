//! The countdown component: a fixed, descending announcement sequence.

use vstd::prelude::*;

verus! {

/// The lines of the countdown: "3!", "2!", "1!", then the liftoff
/// announcement, in that order.
pub open spec fn countdown_spec() -> Seq<Seq<char>> {
    seq!["3!"@, "2!"@, "1!"@, "LIFTOFF!!!"@]
}

/// Build the countdown lines. This cannot fail and takes no input: the
/// sequence is the same on every run.
pub fn countdown_lines() -> (lines: Vec<String>)
    ensures
        lines.deep_view() == countdown_spec(),
{
    let mut lines: Vec<String> = Vec::new();
    lines.push(String::from_str("3!"));
    lines.push(String::from_str("2!"));
    lines.push(String::from_str("1!"));
    lines.push(String::from_str("LIFTOFF!!!"));
    proof {
        assert(lines.deep_view() =~= countdown_spec());
    }
    lines
}

} // verus!
