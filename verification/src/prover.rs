//! Prover acquisition: the two-tier resolution protocol (the explicit
//! candidate search first, the proving library's own default lookup
//! only after it) and the operator-facing diagnostic built when both
//! tiers fail. Constructing the backend prover itself is filesystem
//! work and stays outside; this module fixes every decision around it.

use vstd::prelude::*;

use crate::params::{DirProbe, FileStatus, ParameterSet};

verus! {

/// Where an acquired prover came from: the explicitly resolved
/// parameter files, or the proving library's own default lookup.
pub enum ProverSource {
    ExplicitPaths(ParameterSet),
    DefaultLocation,
}

/// The word reported for one probed file in the diagnostic.
pub open spec fn status_word(s: FileStatus) -> Seq<char> {
    match s {
        FileStatus::Present(_) => "present"@,
        FileStatus::Absent => "missing"@,
        FileStatus::Unreadable => "unreadable"@,
    }
}

/// One reported line per location that the search probed.
pub open spec fn checked_lines(dirs: Seq<Seq<char>>) -> Seq<char>
    decreases dirs.len(),
{
    if dirs.len() == 0 {
        Seq::<char>::empty()
    } else {
        checked_lines(dirs.drop_last()) + "Checked: "@ + dirs.last() + "\n"@
    }
}

/// The per-file detail reported for the best candidate directory, when
/// one exists at all.
pub open spec fn best_candidate_text(best: Option<Seq<char>>, probe: DirProbe) -> Seq<char> {
    match best {
        None => Seq::<char>::empty(),
        Some(d) => "At "@ + d + ":\n  sapling-spend.params: "@ + status_word(probe.spend)
            + "\n  sapling-output.params: "@ + status_word(probe.output) + "\n"@,
    }
}

/// The whole diagnostic: what failed, every location checked, which of
/// the two required files is missing at the best candidate, and the
/// remediation (a download step) the operator can take.
pub open spec fn init_error_text(
    checked: Seq<Seq<char>>,
    best: Option<Seq<char>>,
    probe: DirProbe,
) -> Seq<char> {
    "Prover initialization failed: the Groth16 proving parameters were not found.\n"@
        + checked_lines(checked) + best_candidate_text(best, probe)
        + "To fix this, download the Zcash Sapling parameter files, place them in a 'params' directory at the project root, and restart the request."@
}

/// The reported word for one probed file.
fn status_str(s: FileStatus) -> (r: &'static str)
    ensures
        r@ == status_word(s),
{
    match s {
        FileStatus::Present(_) => "present",
        FileStatus::Absent => "missing",
        FileStatus::Unreadable => "unreadable",
    }
}

/// The "Checked:" report lines for the probed locations, in order.
fn checked_lines_message(checked: &Vec<String>) -> (r: String)
    ensures
        r@ == checked_lines(checked.deep_view()),
{
    let mut m = String::new();
    proof {
        assert(checked.deep_view().take(0) =~= Seq::<Seq<char>>::empty());
    }
    let n = checked.len();
    let mut i: usize = 0;
    while i < n
        invariant
            0 <= i <= n,
            n == checked@.len(),
            m@ == checked_lines(checked.deep_view().take(i as int)),
        decreases n - i,
    {
        m.append("Checked: ");
        m.append(checked[i].as_str());
        m.append("\n");
        proof {
            assert(checked.deep_view().take(i as int + 1).drop_last() =~= checked.deep_view().take(
                i as int,
            ));
            assert(checked.deep_view().take(i as int + 1).last() == checked@[i as int]@);
        }
        i = i + 1;
    }
    proof {
        assert(checked.deep_view().take(n as int) =~= checked.deep_view());
    }
    m
}

/// Build the operator diagnostic for a failed acquisition: the checked
/// locations, the per-file finding at the best candidate (when some
/// candidate directory exists), and the remediation hint.
pub fn init_error_message(checked: &Vec<String>, best: &Option<String>, probe: DirProbe) -> (r:
    String)
    ensures
        r@ == init_error_text(checked.deep_view(), best.deep_view(), probe),
{
    let mut m = String::from_str(
        "Prover initialization failed: the Groth16 proving parameters were not found.\n",
    );
    let lines = checked_lines_message(checked);
    m.append(lines.as_str());
    match best {
        Some(d) => {
            m.append("At ");
            m.append(d.as_str());
            m.append(":\n  sapling-spend.params: ");
            m.append(status_str(probe.spend));
            m.append("\n  sapling-output.params: ");
            m.append(status_str(probe.output));
            m.append("\n");
        },
        None => {},
    }
    m.append(
        "To fix this, download the Zcash Sapling parameter files, place them in a 'params' directory at the project root, and restart the request.",
    );
    proof {
        assert(m@ =~= init_error_text(checked.deep_view(), best.deep_view(), probe));
    }
    m
}

/// Decide the acquisition outcome of the two-tier protocol. The
/// explicit search always takes priority: when it resolved a parameter
/// set, the prover is built from those paths whatever the library's
/// default lookup would have found. Only when it resolved nothing does
/// the default lookup count, and only when that failed too does the
/// request end in the diagnostic error.
pub fn acquire_outcome(
    located: Option<ParameterSet>,
    default_found: bool,
    checked: &Vec<String>,
    best: &Option<String>,
    probe: DirProbe,
) -> (r: Result<ProverSource, String>)
    ensures
        located matches Some(ps) ==> (r matches Ok(s) && s matches ProverSource::ExplicitPaths(ps2)
            && ps2 == ps),
        located is None && default_found ==> (r matches Ok(s) && s is DefaultLocation),
        located is None && !default_found ==> (r matches Err(m) && m@ == init_error_text(
            checked.deep_view(),
            best.deep_view(),
            probe,
        )),
{
    match located {
        Some(ps) => Ok(ProverSource::ExplicitPaths(ps)),
        None => {
            if default_found {
                Ok(ProverSource::DefaultLocation)
            } else {
                Err(init_error_message(checked, best, probe))
            }
        },
    }
}

} // verus!
