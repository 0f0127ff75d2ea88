//! Parameter resolution: an ordered list of candidate directories is
//! derived from the working directory, the executable's directory and
//! the user's home, and the first candidate holding both required key
//! files wins. Filesystem probing itself stays outside; this module
//! fixes the order, the completeness rule, and the resilience to failed
//! probes.

use vstd::prelude::*;

verus! {

/// Outcome of probing one required file at a candidate directory: the
/// file is there with the given byte length, or absent. A probe that
/// failed (permission or other filesystem error) is `Unreadable`; the
/// search treats it exactly like an absent file and carries on instead
/// of raising.
#[derive(Clone, Copy, PartialEq, Eq, Structural, Debug)]
pub enum FileStatus {
    Present(u64),
    Absent,
    Unreadable,
}

/// The byte length a probe recorded for a present file.
pub open spec fn present_bytes(s: FileStatus) -> u64 {
    match s {
        FileStatus::Present(b) => b,
        FileStatus::Absent => 0,
        FileStatus::Unreadable => 0,
    }
}

/// What a probe of one candidate directory found for the two required
/// parameter files.
#[derive(Clone, Copy, PartialEq, Eq, Structural, Debug)]
pub struct DirProbe {
    pub spend: FileStatus,
    pub output: FileStatus,
}

/// A candidate is accepted only when both required files are present.
pub open spec fn probe_complete(p: DirProbe) -> bool {
    p.spend is Present && p.output is Present
}

/// Exactly one of the two required files is present.
pub open spec fn probe_partial(p: DirProbe) -> bool {
    (p.spend is Present) != (p.output is Present)
}

/// How many levels the upward walk from a starting directory may visit,
/// the starting directory included.
pub const MAX_WALK: usize = 5;

/// A directory with the parameter subdirectory appended.
pub open spec fn with_params_subdir(d: Seq<char>) -> Seq<char> {
    d + "/params"@
}

/// The bounded upward walk: the first directories of an ancestor chain,
/// each with the parameter subdirectory appended.
pub open spec fn walk_candidates(anc: Seq<Seq<char>>) -> Seq<Seq<char>> {
    Seq::new(
        if anc.len() < MAX_WALK {
            anc.len()
        } else {
            MAX_WALK as nat
        },
        |i: int| with_params_subdir(anc[i]),
    )
}

/// The full ordered candidate list: the working directory's parameter
/// subdirectory first, then the bounded walk up from the working
/// directory, then the bounded walk up from the executable's directory,
/// then the fixed user-home default directory.
pub open spec fn spec_candidates(
    cwd_anc: Seq<Seq<char>>,
    exe_anc: Seq<Seq<char>>,
    home: Option<Seq<char>>,
) -> Seq<Seq<char>> {
    (if cwd_anc.len() > 0 {
        seq![with_params_subdir(cwd_anc[0])]
    } else {
        Seq::<Seq<char>>::empty()
    }) + walk_candidates(cwd_anc) + walk_candidates(exe_anc) + (match home {
        Some(h) => seq![h + "/.zcash-params"@],
        None => Seq::<Seq<char>>::empty(),
    })
}

/// A directory path with a suffix appended.
fn join_suffix(d: &String, suffix: &str) -> (r: String)
    ensures
        r@ == d@ + suffix@,
{
    let base = d.as_str().to_owned();
    base.concat(suffix)
}

/// Append the bounded upward walk of one ancestor chain.
fn push_walk(out: &mut Vec<String>, anc: &Vec<String>)
    ensures
        final(out)@.len() == old(out)@.len() + walk_candidates(anc.deep_view()).len(),
        forall|k: int| 0 <= k < old(out)@.len() ==> final(out)@[k] == old(out)@[k],
        forall|k: int|
            old(out)@.len() <= k < final(out)@.len() ==> #[trigger] final(out)@[k]@
                == walk_candidates(anc.deep_view())[k - old(out)@.len()],
{
    let m = if anc.len() < MAX_WALK {
        anc.len()
    } else {
        MAX_WALK
    };
    let mut i: usize = 0;
    while i < m
        invariant
            0 <= i <= m,
            m <= anc.len(),
            m as nat == walk_candidates(anc.deep_view()).len(),
            out@.len() == old(out)@.len() + i,
            forall|k: int| 0 <= k < old(out)@.len() ==> out@[k] == old(out)@[k],
            forall|k: int|
                old(out)@.len() <= k < out@.len() ==> #[trigger] out@[k]@ == walk_candidates(
                    anc.deep_view(),
                )[k - old(out)@.len()],
        decreases m - i,
    {
        let c = join_suffix(&anc[i], "/params");
        out.push(c);
        proof {
            assert(anc.deep_view()[i as int] == anc@[i as int]@);
        }
        i = i + 1;
    }
}

/// Build the ordered candidate directory list. The ancestor chains are
/// given outermost-first (the directory itself, then its parent, and so
/// on up to the root); an absent working directory, executable path or
/// home directory simply contributes nothing.
pub fn candidate_dirs(
    cwd_ancestors: &Vec<String>,
    exe_ancestors: &Vec<String>,
    home: &Option<String>,
) -> (r: Vec<String>)
    ensures
        r@.len() == spec_candidates(
            cwd_ancestors.deep_view(),
            exe_ancestors.deep_view(),
            home.deep_view(),
        ).len(),
        forall|k: int|
            0 <= k < r@.len() ==> #[trigger] r@[k]@ == spec_candidates(
                cwd_ancestors.deep_view(),
                exe_ancestors.deep_view(),
                home.deep_view(),
            )[k],
{
    let ghost cands = spec_candidates(
        cwd_ancestors.deep_view(),
        exe_ancestors.deep_view(),
        home.deep_view(),
    );
    let ghost s1 = if cwd_ancestors.deep_view().len() > 0 {
        seq![with_params_subdir(cwd_ancestors.deep_view()[0])]
    } else {
        Seq::<Seq<char>>::empty()
    };
    let ghost s2 = walk_candidates(cwd_ancestors.deep_view());
    let ghost s3 = walk_candidates(exe_ancestors.deep_view());
    let ghost s4 = match home.deep_view() {
        Some(h) => seq![h + "/.zcash-params"@],
        None => Seq::<Seq<char>>::empty(),
    };
    let mut out: Vec<String> = Vec::new();
    if cwd_ancestors.len() > 0 {
        let c = join_suffix(&cwd_ancestors[0], "/params");
        out.push(c);
        proof {
            assert(cwd_ancestors.deep_view()[0] == cwd_ancestors@[0]@);
        }
    }
    proof {
        assert(out@.len() == s1.len());
        assert(forall|k: int| 0 <= k < out@.len() ==> #[trigger] out@[k]@ == s1[k]);
    }
    push_walk(&mut out, cwd_ancestors);
    push_walk(&mut out, exe_ancestors);
    match home {
        Some(h) => {
            let c = join_suffix(h, "/.zcash-params");
            out.push(c);
            proof {
                assert(home.deep_view() == Some(h@));
            }
        },
        None => {},
    }
    proof {
        assert(out@.len() == cands.len());
        assert forall|k: int| 0 <= k < out@.len() implies #[trigger] out@[k]@ == cands[k] by {
            if k < s1.len() {
                assert(cands[k] == s1[k]);
            } else if k < s1.len() + s2.len() {
                assert(cands[k] == s2[k - s1.len()]);
            } else if k < s1.len() + s2.len() + s3.len() {
                assert(cands[k] == s3[k - s1.len() - s2.len()]);
            } else {
                assert(cands[k] == s4[k - s1.len() - s2.len() - s3.len()]);
            }
        }
    }
    out
}

/// Index of the first complete probe, or the length of the list when no
/// probe is complete.
pub open spec fn first_complete_idx(p: Seq<DirProbe>) -> int
    decreases p.len(),
{
    if p.len() == 0 {
        0
    } else if probe_complete(p[0]) {
        0
    } else {
        1 + first_complete_idx(p.drop_first())
    }
}

/// What the first-complete index means: it is in range exactly when a
/// complete probe exists, it points at a complete probe, and everything
/// before it is incomplete.
pub proof fn lemma_first_complete_props(p: Seq<DirProbe>)
    ensures
        0 <= first_complete_idx(p) <= p.len(),
        first_complete_idx(p) < p.len() ==> probe_complete(p[first_complete_idx(p)]),
        forall|j: int| 0 <= j < first_complete_idx(p) ==> !probe_complete(p[j]),
    decreases p.len(),
{
    if p.len() > 0 && !probe_complete(p[0]) {
        lemma_first_complete_props(p.drop_first());
        assert forall|j: int| 0 <= j < first_complete_idx(p) implies !probe_complete(
            p[j],
        ) by {
            if j > 0 {
                assert(p.drop_first()[j - 1] == p[j]);
                assert(!probe_complete(p.drop_first()[j - 1]));
            }
        }
        if first_complete_idx(p) < p.len() {
            assert(p.drop_first()[first_complete_idx(p.drop_first())] == p[first_complete_idx(p)]);
        }
    }
}

/// Ordering law: if a candidate holds a complete parameter set and no
/// earlier-ordered candidate does, the search returns exactly that
/// candidate.
pub proof fn lemma_locate_ordering(p: Seq<DirProbe>, i: int)
    requires
        0 <= i < p.len(),
        probe_complete(p[i]),
        forall|j: int| 0 <= j < i ==> !probe_complete(p[j]),
    ensures
        first_complete_idx(p) == i,
{
    lemma_first_complete_props(p);
    let k = first_complete_idx(p);
    if k < i {
        assert(!probe_complete(p[k]));
        assert(false);
    } else if k > i {
        assert(!probe_complete(p[i]));
        assert(false);
    }
}

/// No-partial-match law: a candidate where only one of the two required
/// files exists is never returned, and the search continues past it to
/// the first lower-priority candidate that is complete.
pub proof fn lemma_locate_no_partial(p: Seq<DirProbe>, i: int, k: int)
    requires
        0 <= i < k < p.len(),
        probe_partial(p[i]),
        probe_complete(p[k]),
        forall|j: int| 0 <= j < k && j != i ==> !probe_complete(p[j]),
    ensures
        first_complete_idx(p) != i,
        first_complete_idx(p) == k,
{
    assert(!probe_complete(p[i]));
    lemma_locate_ordering(p, k);
}

/// Resilience law: a candidate whose probe failed on either file is
/// never returned; a filesystem error counts as absence, and the search
/// itself is a total, verified function that cannot raise.
pub proof fn lemma_locate_error_skipped(p: Seq<DirProbe>, i: int)
    requires
        0 <= i < p.len(),
        p[i].spend is Unreadable || p[i].output is Unreadable,
    ensures
        first_complete_idx(p) != i,
{
    lemma_first_complete_props(p);
    assert(!probe_complete(p[i]));
}

/// Select the first candidate whose probe found both required files;
/// none when no candidate is complete. Failed probes are skipped like
/// absent files.
pub fn select_first_complete(probes: &Vec<DirProbe>) -> (r: Option<usize>)
    ensures
        r matches Some(i) ==> (i as int) < probes@.len() && first_complete_idx(probes@)
            == i as int,
        r is None <==> first_complete_idx(probes@) == probes@.len(),
{
    let n = probes.len();
    let mut i: usize = 0;
    while i < n
        invariant
            0 <= i <= n,
            n == probes@.len(),
            forall|j: int| 0 <= j < i ==> !probe_complete(probes@[j]),
        decreases n - i,
    {
        let p = probes[i];
        let complete = matches!(p.spend, FileStatus::Present(_)) && matches!(
            p.output,
            FileStatus::Present(_),
        );
        if complete {
            proof {
                lemma_locate_ordering(probes@, i as int);
            }
            return Some(i);
        }
        i = i + 1;
    }
    proof {
        lemma_first_complete_props(probes@);
        if first_complete_idx(probes@) < probes@.len() {
            assert(!probe_complete(probes@[first_complete_idx(probes@)]));
        }
    }
    None
}

/// The two required key-material artifacts, resolved at one directory:
/// each is a path with the byte length the probe recorded for it.
pub struct ParameterSet {
    pub dir: String,
    pub spend_path: String,
    pub output_path: String,
    pub spend_bytes: u64,
    pub output_bytes: u64,
}

impl ParameterSet {
    /// Both file paths name the two required artifacts directly under
    /// the resolved directory.
    pub open spec fn wf(self) -> bool {
        self.spend_path@ == self.dir@ + "/sapling-spend.params"@ && self.output_path@
            == self.dir@ + "/sapling-output.params"@
    }
}

/// The paths of the two required parameter files under one directory,
/// the spend artifact first.
pub fn param_file_paths(dir: &String) -> (r: (String, String))
    ensures
        r.0@ == dir@ + "/sapling-spend.params"@,
        r.1@ == dir@ + "/sapling-output.params"@,
{
    let spend_path = join_suffix(dir, "/sapling-spend.params");
    let output_path = join_suffix(dir, "/sapling-output.params");
    (spend_path, output_path)
}

/// Resolve the parameter set: the first candidate directory whose probe
/// found both required files, with the probed byte lengths; nothing
/// when no candidate is complete. Absence is a valid outcome, not an
/// error, and a failed probe only makes its candidate count as
/// incomplete.
pub fn locate(candidates: &Vec<String>, probes: &Vec<DirProbe>) -> (r: Option<ParameterSet>)
    requires
        candidates@.len() == probes@.len(),
    ensures
        r matches Some(ps) ==> first_complete_idx(probes@) < probes@.len() && ps.wf()
            && ps.dir@ == candidates@[first_complete_idx(probes@)]@ && ps.spend_bytes
            == present_bytes(probes@[first_complete_idx(probes@)].spend) && ps.output_bytes
            == present_bytes(probes@[first_complete_idx(probes@)].output),
        r is None <==> first_complete_idx(probes@) == probes@.len(),
{
    match select_first_complete(probes) {
        Some(i) => {
            let p = probes[i];
            proof {
                lemma_first_complete_props(probes@);
            }
            let spend_bytes = match p.spend {
                FileStatus::Present(b) => b,
                FileStatus::Absent => unreached(),
                FileStatus::Unreadable => unreached(),
            };
            let output_bytes = match p.output {
                FileStatus::Present(b) => b,
                FileStatus::Absent => unreached(),
                FileStatus::Unreadable => unreached(),
            };
            let dir = candidates[i].as_str().to_owned();
            let (spend_path, output_path) = param_file_paths(&candidates[i]);
            Some(ParameterSet { dir, spend_path, output_path, spend_bytes, output_bytes })
        },
        None => None,
    }
}

} // verus!
