//! The report of the chain's privileged keys: the sudo key and the
//! technical committee members.
use vstd::prelude::*;

verus! {

/// The report: the sudo key on one line, the technical committee members
/// on the next, each given by its rendering.
pub open spec fn keys_report_text(sudo: Seq<char>, members: Seq<char>) -> Seq<char> {
    "sudo key: "@ + sudo + "\n"@ + "technical committee members: "@ + members
}

/// The report of the sudo key and the technical committee members, given
/// their renderings.
pub fn keys_report(sudo: &str, members: &str) -> (res: String)
    ensures
        res@ == keys_report_text(sudo@, members@),
{
    let mut report = String::from_str("sudo key: ");
    report.append(sudo);
    report.append("\n");
    report.append("technical committee members: ");
    report.append(members);
    report
}

} // verus!
