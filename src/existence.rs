//! The batch existence check. Asking the filesystem whether a path exists is
//! left to the caller's probe; this module asks it once per path, in order,
//! and reports each answer in the position of its path.
use vstd::prelude::*;

verus! {

/// Whether `answer` is one that `probe` may give for `path`.
pub open spec fn probe_reports<F: Fn(&String) -> bool>(probe: F, path: String, answer: bool) -> bool {
    probe.ensures((&path,), answer)
}

/// Whether `r` is a report on `file_paths` by `probe`: one answer for each
/// path, the answer for the i-th path at index i.
pub open spec fn existence_report<F: Fn(&String) -> bool>(
    file_paths: Seq<String>,
    probe: F,
    r: Seq<bool>,
) -> bool {
    &&& r.len() == file_paths.len()
    &&& forall|i: int| 0 <= i < r.len() ==> probe_reports(probe, file_paths[i], #[trigger] r[i])
}

/// Whether every answer that `probe` may give is true exactly of the paths in
/// `present`: a probe of a filesystem on which `present` are the paths that exist.
pub open spec fn faithful_to<F: Fn(&String) -> bool>(probe: F, present: Set<Seq<char>>) -> bool {
    forall|path: String, answer: bool|
        #[trigger] probe_reports(probe, path, answer) ==> answer == present.contains(path@)
}

/// Asks `probe` about each of `file_paths` and returns the answers in order:
/// one for each path, the answer for the i-th path at index i.
pub fn check_file_existence<F: Fn(&String) -> bool>(file_paths: Vec<String>, probe: F) -> (r: Vec<bool>)
    requires
        forall|i: int| 0 <= i < file_paths.len() ==> probe.requires((&file_paths[i],)),
    ensures
        existence_report(file_paths@, probe, r@),
{
    let mut r: Vec<bool> = Vec::new();
    let mut i: usize = 0;
    while i < file_paths.len()
        invariant
            i <= file_paths.len(),
            r.len() == i,
            forall|j: int| 0 <= j < file_paths.len() ==> probe.requires((&file_paths[j],)),
            forall|j: int| 0 <= j < i ==> probe_reports(probe, file_paths[j], #[trigger] r[j]),
        decreases file_paths.len() - i,
    {
        let found = probe(&file_paths[i]);
        r.push(found);
        i = i + 1;
    }
    r
}

/// A report by a faithful probe says `false` of every path that does not exist.
pub proof fn lemma_absent_path_reported_false<F: Fn(&String) -> bool>(
    file_paths: Seq<String>,
    probe: F,
    present: Set<Seq<char>>,
    r: Seq<bool>,
    i: int,
)
    requires
        existence_report(file_paths, probe, r),
        faithful_to(probe, present),
        0 <= i < file_paths.len(),
        !present.contains(file_paths[i]@),
    ensures
        r[i] == false,
{
    assert(probe_reports(probe, file_paths[i], r[i]));
}

/// A report by a faithful probe says `true` of every path that exists.
pub proof fn lemma_present_path_reported_true<F: Fn(&String) -> bool>(
    file_paths: Seq<String>,
    probe: F,
    present: Set<Seq<char>>,
    r: Seq<bool>,
    i: int,
)
    requires
        existence_report(file_paths, probe, r),
        faithful_to(probe, present),
        0 <= i < file_paths.len(),
        present.contains(file_paths[i]@),
    ensures
        r[i] == true,
{
    assert(probe_reports(probe, file_paths[i], r[i]));
}

} // verus!
