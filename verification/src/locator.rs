use vstd::prelude::*;
use vstd::string::StringExecFns;

verus! {

/// One place the native library might live, together with whether a file
/// actually exists there.  The embedding program probes the filesystem and
/// hands the results in; the library only decides between them.
#[derive(Debug, Clone, PartialEq, Eq)]
pub struct Candidate {
    pub path: String,
    pub exists: bool,
}

/// The first existing path among an ordered list of candidates, if any.
pub open spec fn spec_resolve(s: Seq<Candidate>) -> Option<Seq<char>>
    decreases s.len(),
{
    if s.len() == 0 {
        None
    } else if s[0].exists {
        Some(s[0].path@)
    } else {
        spec_resolve(s.skip(1))
    }
}

/// Whether the native library counts as available: an installer-managed
/// path is consulted first and decides by its own existence; otherwise the
/// library is available exactly when some candidate path exists.
pub open spec fn spec_available(installer: Option<Candidate>, s: Seq<Candidate>) -> bool {
    match installer {
        Some(c) => c.exists,
        None => spec_resolve(s) is Some,
    }
}

/// The fixed, ordered fallback locations that are probed when no installer
/// is configured: the project-local library first, then the current
/// directory.
pub fn default_candidate_locations() -> (v: Vec<String>)
    ensures
        v@.len() == 2,
        v@[0]@ == "go_lib/go_lib.dll"@,
        v@[1]@ == "./go_lib.dll"@,
{
    let mut v: Vec<String> = Vec::new();
    v.push("go_lib/go_lib.dll".to_owned());
    v.push("./go_lib.dll".to_owned());
    v
}

/// Resolve the path of the native library.  An installer-managed path, if
/// one is configured, wins outright; otherwise the first existing
/// candidate wins, in the order given, and nothing is returned when none
/// exists.  The scan has no side effects, so repeated calls over the same
/// candidates give the same answer.
pub fn get_dll_path(installer: &Option<Candidate>, candidates: &Vec<Candidate>) -> (r: Option<
    String,
>)
    ensures
        *installer matches Some(c) ==> (r matches Some(p) && p@ == c.path@),
        *installer is None ==> (match spec_resolve(candidates@) {
            Some(q) => r matches Some(p) && p@ == q,
            None => r is None,
        }),
{
    match installer {
        Some(c) => Some(c.path.as_str().to_owned()),
        None => {
            proof {
                assert(candidates@.skip(0) =~= candidates@);
            }
            let n = candidates.len();
            let mut i: usize = 0;
            while i < n
                invariant
                    *installer is None,
                    i <= n,
                    n == candidates@.len(),
                    spec_resolve(candidates@) == spec_resolve(candidates@.skip(i as int)),
                decreases n - i,
            {
                if candidates[i].exists {
                    proof {
                        assert(candidates@.skip(i as int)[0] == candidates@[i as int]);
                    }
                    return Some(candidates[i].path.as_str().to_owned());
                }
                proof {
                    assert(candidates@.skip(i as int).skip(1) =~= candidates@.skip(i as int + 1));
                }
                i = i + 1;
            }
            None
        },
    }
}

/// Whether the native library is available on this system, given the
/// probed candidates.
pub fn is_dll_available(installer: &Option<Candidate>, candidates: &Vec<Candidate>) -> (r: bool)
    ensures
        r == spec_available(*installer, candidates@),
{
    match installer {
        Some(c) => c.exists,
        None => {
            let resolved = get_dll_path(installer, candidates);
            resolved.is_some()
        },
    }
}

/// When no candidate exists (and no installer-managed path does either),
/// the library is unavailable and no path resolves.
pub proof fn lemma_no_candidate_unavailable(installer: Option<Candidate>, s: Seq<Candidate>)
    requires
        installer matches Some(c) ==> !c.exists,
        forall|i: int| 0 <= i < s.len() ==> !(#[trigger] s[i].exists),
    ensures
        !spec_available(installer, s),
        installer is None ==> spec_resolve(s) is None,
    decreases s.len(),
{
    if s.len() > 0 {
        assert forall|i: int| 0 <= i < s.skip(1).len() implies !(#[trigger] s.skip(1)[i].exists) by {
            assert(s.skip(1)[i] == s[i + 1]);
        }
        lemma_no_candidate_unavailable(installer, s.skip(1));
    }
}

} // verus!
