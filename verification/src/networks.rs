//! The network-listing component: turn the identifiers a wireless scan
//! reports into the lines the program prints, one per network, in the
//! order given and with each identifier reproduced verbatim.

use vstd::prelude::*;

verus! {

/// Failure reported by the scanning capability. The program does not
/// recover from it; the message only serves whoever reports the crash.
pub struct ScanError {
    pub message: String,
}

/// The line printed for one network identifier.
pub open spec fn ssid_line_spec(ssid: Seq<char>) -> Seq<char> {
    "SSID: "@ + ssid
}

/// The lines printed for a whole scan result: one per identifier, in the
/// order the scan reported them, with no re-sorting and no de-duplication.
pub open spec fn report_spec(ssids: Seq<Seq<char>>) -> Seq<Seq<char>> {
    ssids.map_values(|ssid: Seq<char>| ssid_line_spec(ssid))
}

/// Format the line for one network identifier.
pub fn ssid_line(ssid: &str) -> (line: String)
    ensures
        line@ == ssid_line_spec(ssid@),
{
    let mut line = String::from_str("SSID: ");
    line.append(ssid);
    line
}

/// Format the lines for every reported network, in the order given.
pub fn ssid_lines(ssids: &Vec<String>) -> (lines: Vec<String>)
    ensures
        lines.deep_view() == report_spec(ssids.deep_view()),
{
    let mut lines: Vec<String> = Vec::new();
    let mut i: usize = 0;
    while i < ssids.len()
        invariant
            i <= ssids.len(),
            lines.deep_view().len() == i,
            forall|j: int|
                0 <= j < i ==> lines.deep_view()[j] == ssid_line_spec(ssids.deep_view()[j]),
        decreases ssids.len() - i,
    {
        let line = ssid_line(ssids[i].as_str());
        let ghost prev = lines.deep_view();
        lines.push(line);
        proof {
            assert(lines.deep_view() =~= prev.push(line@));
        }
        i = i + 1;
    }
    proof {
        assert(lines.deep_view() =~= report_spec(ssids.deep_view()));
    }
    lines
}

} // verus!
