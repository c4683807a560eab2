use vstd::prelude::*;

verus! {

/// Whether `path`, as a list of components, lies strictly below the `SCANS` directory of the
/// project directory `project_dir`.
pub open spec fn below_scans_dir(project_dir: Seq<String>, path: Seq<String>) -> bool {
    &&& path.len() > project_dir.len() + 1
    &&& forall|i: int| 0 <= i < project_dir.len() ==> #[trigger] path[i]@ == project_dir[i]@
    &&& path[project_dir.len() as int]@ == "SCANS"@
}

/// The name of the scan position that `path` belongs to: the component right after the
/// project's `SCANS` directory. `None` when `path` does not lie below that directory.
///
/// Both paths are given as their components, from the root down.
pub fn scan_position_name(project_dir: &Vec<String>, path: &Vec<String>) -> (r: Option<String>)
    ensures
        r is Some <==> below_scans_dir(project_dir@, path@),
        r matches Some(n) ==> n@ == path@[project_dir@.len() + 1int]@,
{
    let k = project_dir.len();
    if path.len() <= k || path.len() - k < 2 {
        return None;
    }
    let mut i: usize = 0;
    while i < k
        invariant
            k == project_dir@.len(),
            path@.len() > k + 1,
            0 <= i <= k,
            forall|j: int| 0 <= j < i ==> #[trigger] path@[j]@ == project_dir@[j]@,
        decreases k - i,
    {
        if path[i] != project_dir[i] {
            return None;
        }
        i = i + 1;
    }
    let scans = "SCANS".to_owned();
    proof {
        reveal_strlit("SCANS");
    }
    if path[k] != scans {
        return None;
    }
    Some(path[k + 1].clone())
}

} // verus!
