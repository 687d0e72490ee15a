//! Finding the Nsight Graphics installation from the injection libraries that
//! a launcher has already loaded into the process.
//!
//! The caller asks the operating system, for each library that
//! [`probe_dll_name`] names and in that order, whether it is loaded and, if
//! so, for the full path of its file (into a buffer of
//! [`MODULE_PATH_CAPACITY`] units) and for the directory
//! [`INSTALL_ROOT_LEVELS`] levels above that file. [`detect_install_path`]
//! then decides which answer gives the installation directory.

use vstd::prelude::*;

verus! {

/// How many injection libraries are probed.
pub const PROBE_DLL_COUNT: usize = 6;

/// How many levels above a library's file the installation directory lies:
/// the libraries sit at `<install>/target/<variant>/<dll>`.
pub const INSTALL_ROOT_LEVELS: usize = 3;

/// The size, in UTF-16 units, of the buffer that receives a module's path.
pub const MODULE_PATH_CAPACITY: usize = 4096;

/// The file names of the injection libraries that Nsight launchers load,
/// in the order in which they are probed.
pub open spec fn spec_probe_dll_name(index: int) -> Seq<char> {
    if index == 0 {
        "WarpVizTarget.dll"@
    } else if index == 1 {
        "WarpViz.Injection.dll"@
    } else if index == 2 {
        "ngfx-capture-interception.dll"@
    } else if index == 3 {
        "ngfx-capture-injection.dll"@
    } else if index == 4 {
        "ngfx-api-bootstrap.dll"@
    } else {
        "ToolsInjection64.dll"@
    }
}

/// The file name of the `index`-th injection library probed, if there is
/// one.
pub fn probe_dll_name(index: usize) -> (r: Option<&'static str>)
    ensures
        r is Some <==> index < PROBE_DLL_COUNT,
        r matches Some(s) ==> s@ == spec_probe_dll_name(index as int),
{
    if index == 0 {
        Some("WarpVizTarget.dll")
    } else if index == 1 {
        Some("WarpViz.Injection.dll")
    } else if index == 2 {
        Some("ngfx-capture-interception.dll")
    } else if index == 3 {
        Some("ngfx-capture-injection.dll")
    } else if index == 4 {
        Some("ngfx-api-bootstrap.dll")
    } else if index == 5 {
        Some("ToolsInjection64.dll")
    } else {
        None
    }
}

/// What the operating system reported of one loaded injection library.
pub struct ModuleProbe {
    /// The count the module file-name query returned: the number of units
    /// written, 0 on failure, the buffer's capacity when the path was cut.
    pub written: u32,
    /// The directory [`INSTALL_ROOT_LEVELS`] levels above the module's file,
    /// if the path has that many levels.
    pub install_root: Option<String>,
}

/// Whether the file-name query of a module succeeded without cutting the
/// path short.
pub open spec fn path_complete(written: u32) -> bool {
    0 < written && written < MODULE_PATH_CAPACITY
}

/// The installation directory that one probe yields: none for a library
/// that is not loaded, nor where the path query failed or was cut short, nor
/// where the path has too few levels.
pub open spec fn probe_root(p: Option<ModuleProbe>) -> Option<Seq<char>> {
    match p {
        None => None,
        Some(m) => if path_complete(m.written) {
            match m.install_root {
                Some(s) => Some(s@),
                None => None,
            }
        } else {
            None
        },
    }
}

/// The installation directory that the first probe yielding one gives.
pub open spec fn first_root(ps: Seq<Option<ModuleProbe>>) -> Option<Seq<char>>
    decreases ps.len(),
{
    if ps.len() == 0 {
        None
    } else {
        match probe_root(ps[0]) {
            Some(r) => Some(r),
            None => first_root(ps.drop_first()),
        }
    }
}

/// The installation directory, from the probes of the injection libraries in
/// probe order (`None` where a library is not loaded): the directory given by
/// the first library that is loaded, whose path was read whole, and whose
/// path has [`INSTALL_ROOT_LEVELS`] levels above the file; `None` where
/// there is no such library, and in particular where no known library is
/// loaded.
#[verifier::loop_isolation(false)]
pub fn detect_install_path(probes: &Vec<Option<ModuleProbe>>) -> (r: Option<String>)
    ensures
        r matches Some(s) ==> first_root(probes@) == Some(s@),
        r is None ==> first_root(probes@) is None,
        forall|k: int|
            0 <= k < probes@.len() && (#[trigger] probes@[k] is Some && 0 < probes@[k]->0.written && probes@[k]->0.written < MODULE_PATH_CAPACITY && probes@[k]->0.install_root is Some) && (forall|j: int|
                0 <= j < k ==> !(probes@[j] is Some && 0 < probes@[j]->0.written && probes@[j]->0.written < MODULE_PATH_CAPACITY && probes@[j]->0.install_root is Some)) ==> r is Some && r->0@
                == probes@[k]->0.install_root->0@,
        r is None <==> forall|j: int|
            0 <= j < probes@.len() ==> !(#[trigger] probes@[j] is Some && 0 < probes@[j]->0.written && probes@[j]->0.written < MODULE_PATH_CAPACITY && probes@[j]->0.install_root is Some),
{
    proof {
        assert forall|k: int|
            0 <= k < probes@.len() && (#[trigger] probes@[k] is Some && 0 < probes@[k]->0.written && probes@[k]->0.written < MODULE_PATH_CAPACITY && probes@[k]->0.install_root is Some) && (forall|j: int|
                0 <= j < k ==> !(probes@[j] is Some && 0 < probes@[j]->0.written && probes@[j]->0.written < MODULE_PATH_CAPACITY && probes@[j]->0.install_root is Some)) implies first_root(probes@)
            == Some(probes@[k]->0.install_root->0@) by {
            lemma_complete_probe_gives_its_root(
                probes@,
                k,
                probes@[k]->0,
                probes@[k]->0.install_root->0,
            );
        }
        lemma_root_found_iff_some_probe_complete(probes@);
    }
    let n: usize = probes.len();
    let mut i: usize = 0;
    assert(probes@.skip(0) == probes@);
    while i < n
        invariant
            n == probes@.len(),
            0 <= i <= n,
            first_root(probes@) == first_root(probes@.skip(i as int)),
        decreases n - i,
    {
        assert(probes@.skip(i as int).drop_first() == probes@.skip(i + 1));
        match &probes[i] {
            Some(m) => {
                if 0 < m.written && (m.written as usize) < MODULE_PATH_CAPACITY {
                    match &m.install_root {
                        Some(root) => {
                            return Some(root.clone());
                        },
                        None => {},
                    }
                }
            },
            None => {},
        }
        i = i + 1;
    }
    None
}

/// Where no known injection library is loaded, no installation directory is
/// found.
pub proof fn lemma_none_loaded_finds_nothing(ps: Seq<Option<ModuleProbe>>)
    requires
        forall|i: int| 0 <= i < ps.len() ==> #[trigger] ps[i] is None,
    ensures
        first_root(ps) is None,
    decreases ps.len(),
{
    if ps.len() > 0 {
        assert(ps[0] is None);
        lemma_none_loaded_finds_nothing(ps.drop_first());
    }
}

/// The directory comes from the first library that yields one: the probes
/// before it yield none, and the ones after it do not matter.
pub proof fn lemma_first_yielding_probe_decides(ps: Seq<Option<ModuleProbe>>, k: int)
    requires
        0 <= k < ps.len(),
        probe_root(ps[k]) is Some,
        forall|j: int| 0 <= j < k ==> #[trigger] probe_root(ps[j]) is None,
    ensures
        first_root(ps) == probe_root(ps[k]),
    decreases k,
{
    if k > 0 {
        assert(probe_root(ps[0]) is None);
        let rest = ps.drop_first();
        assert forall|j: int| 0 <= j < k - 1 implies #[trigger] probe_root(rest[j]) is None by {
            assert(rest[j] == ps[j + 1]);
        }
        lemma_first_yielding_probe_decides(rest, k - 1);
    }
}

/// A library that is loaded, whose path was read whole (its count is above 0
/// and below the buffer's capacity) and that has an installation directory
/// above it gives exactly that directory, whatever it is, when no library
/// probed before it is such a library.
pub proof fn lemma_complete_probe_gives_its_root(
    ps: Seq<Option<ModuleProbe>>,
    k: int,
    m: ModuleProbe,
    s: String,
)
    requires
        0 <= k < ps.len(),
        ps[k] == Some(m),
        0 < m.written && m.written < MODULE_PATH_CAPACITY,
        m.install_root == Some(s),
        forall|j: int|
            0 <= j < k ==> !(#[trigger] ps[j] is Some && 0 < ps[j]->0.written && ps[j]->0.written < MODULE_PATH_CAPACITY && ps[j]->0.install_root is Some),
    ensures
        first_root(ps) == Some(s@),
    decreases k,
{
    if k > 0 {
        assert(!(ps[0] is Some && 0 < ps[0]->0.written && ps[0]->0.written < MODULE_PATH_CAPACITY && ps[0]->0.install_root is Some));
        let rest = ps.drop_first();
        assert forall|j: int| 0 <= j < k - 1 implies !(#[trigger] rest[j] is Some && 0 < rest[j]->0.written && rest[j]->0.written < MODULE_PATH_CAPACITY && rest[j]->0.install_root is Some) by {
            assert(rest[j] == ps[j + 1]);
        }
        lemma_complete_probe_gives_its_root(rest, k - 1, m, s);
    }
}

/// A directory is found exactly when some library is loaded, had its path
/// read whole and has an installation directory above it; and the directory
/// found is the one above such a library.
pub proof fn lemma_root_found_iff_some_probe_complete(ps: Seq<Option<ModuleProbe>>)
    ensures
        first_root(ps) is Some <==> exists|k: int|
            0 <= k < ps.len() && (#[trigger] ps[k] is Some && 0 < ps[k]->0.written && ps[k]->0.written < MODULE_PATH_CAPACITY && ps[k]->0.install_root is Some),
        first_root(ps) matches Some(x) ==> exists|k: int|
            0 <= k < ps.len() && (#[trigger] ps[k] is Some && 0 < ps[k]->0.written && ps[k]->0.written < MODULE_PATH_CAPACITY && ps[k]->0.install_root is Some && ps[k]->0.install_root->0@ == x),
    decreases ps.len(),
{
    if ps.len() > 0 {
        let rest = ps.drop_first();
        lemma_root_found_iff_some_probe_complete(rest);
        assert forall|k: int| 0 <= k < rest.len() implies #[trigger] rest[k] == ps[k + 1] by {}
        if exists|k: int|
            0 <= k < rest.len() && (#[trigger] rest[k] is Some && 0 < rest[k]->0.written && rest[k]->0.written < MODULE_PATH_CAPACITY && rest[k]->0.install_root is Some) {
            let k = choose|k: int|
                0 <= k < rest.len() && (#[trigger] rest[k] is Some && 0 < rest[k]->0.written && rest[k]->0.written < MODULE_PATH_CAPACITY && rest[k]->0.install_root is Some);
            assert(ps[k + 1] == rest[k]);
        }
        if let Some(x) = first_root(rest) {
            let k = choose|k: int|
                0 <= k < rest.len() && (#[trigger] rest[k] is Some && 0 < rest[k]->0.written && rest[k]->0.written < MODULE_PATH_CAPACITY && rest[k]->0.install_root is Some && rest[k]->0.install_root->0@ == x);
            assert(ps[k + 1] == rest[k]);
        }
        if exists|k: int|
            0 <= k < ps.len() && (#[trigger] ps[k] is Some && 0 < ps[k]->0.written && ps[k]->0.written < MODULE_PATH_CAPACITY && ps[k]->0.install_root is Some) {
            let k = choose|k: int|
                0 <= k < ps.len() && (#[trigger] ps[k] is Some && 0 < ps[k]->0.written && ps[k]->0.written < MODULE_PATH_CAPACITY && ps[k]->0.install_root is Some);
            if k > 0 {
                assert(rest[k - 1] == ps[k]);
            }
        }
    }
}

} // verus!
