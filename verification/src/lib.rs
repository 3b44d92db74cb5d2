//! A small launch demo: a fixed countdown followed by a listing of the
//! wireless networks that a scanning capability reports.
//!
//! The library computes every line the program prints and models a whole
//! run as a function from the scan outcome to a [`Transcript`]. The scan
//! itself touches the host's wireless hardware and lives outside the
//! library; callers hand its outcome in as plain values.

use vstd::prelude::*;

pub mod countdown;
pub mod networks;

verus! {

use crate::countdown::{countdown_lines, countdown_spec};
use crate::networks::{report_spec, ssid_line_spec, ssid_lines, ScanError};

/// Everything one run writes to standard output, line by line, and
/// whether the run may end successfully. On failure the caller is
/// expected to stop the process abnormally after printing the lines.
pub struct Transcript {
    pub lines: Vec<String>,
    pub success: bool,
}

/// The scan outcome reduced to what standard output depends on: the
/// identifiers on success, nothing on failure.
pub open spec fn scan_view(scan: Result<Vec<String>, ScanError>) -> Result<Seq<Seq<char>>, ()> {
    match scan {
        Ok(ssids) => Ok(ssids.deep_view()),
        Err(_) => Err(()),
    }
}

/// What a whole run prints: the countdown always comes first; the
/// network lines follow only when the scan succeeded.
pub open spec fn stdout_spec(scan: Result<Seq<Seq<char>>, ()>) -> Seq<Seq<char>> {
    match scan {
        Ok(ssids) => countdown_spec() + report_spec(ssids),
        Err(_) => countdown_spec(),
    }
}

/// Run the whole program on a scan outcome: countdown first,
/// unconditionally, then one line per reported network. A failed scan
/// leaves the countdown as the only output and marks the run as failed.
pub fn run(scan: Result<Vec<String>, ScanError>) -> (t: Transcript)
    ensures
        t.success == scan is Ok,
        t.lines.deep_view() == stdout_spec(scan_view(scan)),
{
    let mut lines = countdown_lines();
    match scan {
        Ok(ssids) => {
            let mut report = ssid_lines(&ssids);
            lines.append(&mut report);
            proof {
                assert(lines.deep_view() =~= stdout_spec(scan_view(Ok(ssids))));
            }
            Transcript { lines, success: true }
        },
        Err(_) => Transcript { lines, success: false },
    }
}

/// Whatever the scan reports — identifiers or a failure — standard
/// output begins with the four countdown lines, in their fixed order.
pub proof fn lemma_output_starts_with_countdown(scan: Result<Seq<Seq<char>>, ()>)
    ensures
        stdout_spec(scan).len() >= countdown_spec().len(),
        stdout_spec(scan).take(countdown_spec().len() as int) == countdown_spec(),
{
    assert(stdout_spec(scan).take(countdown_spec().len() as int) =~= countdown_spec());
}

/// A scan that reports no network adds no line after the countdown.
pub proof fn lemma_empty_scan_adds_no_lines(ssids: Seq<Seq<char>>)
    requires
        ssids.len() == 0,
    ensures
        stdout_spec(Ok(ssids)) == countdown_spec(),
{
    assert(stdout_spec(Ok(ssids)) =~= countdown_spec());
}

/// A successful scan adds exactly one line per reported identifier,
/// in the reported order, and each line ends with the identifier
/// verbatim after the fixed prefix.
pub proof fn lemma_one_line_per_network(ssids: Seq<Seq<char>>)
    ensures
        stdout_spec(Ok(ssids)).len() == countdown_spec().len() + ssids.len(),
        forall|i: int|
            0 <= i < ssids.len() ==> stdout_spec(Ok(ssids))[countdown_spec().len() + i]
                == ssid_line_spec(ssids[i]),
        forall|i: int|
            0 <= i < ssids.len() ==> stdout_spec(Ok(ssids))[countdown_spec().len() + i].skip(
                "SSID: "@.len() as int,
            ) == ssids[i],
{
    assert forall|i: int| 0 <= i < ssids.len() implies stdout_spec(Ok(ssids))[countdown_spec().len()
        + i].skip("SSID: "@.len() as int) == ssids[i] by {
        assert(ssid_line_spec(ssids[i]).skip("SSID: "@.len() as int) =~= ssids[i]);
    }
}

/// Two runs over an unchanged set of visible networks print the same
/// lines: the output depends on the reported identifiers alone, and on
/// nothing a failure might carry.
pub proof fn lemma_identical_runs(
    first: Result<Vec<String>, ScanError>,
    second: Result<Vec<String>, ScanError>,
)
    requires
        first is Ok <==> second is Ok,
        first is Ok ==> first->Ok_0.deep_view() == second->Ok_0.deep_view(),
    ensures
        stdout_spec(scan_view(first)) == stdout_spec(scan_view(second)),
{
}

} // verus!
