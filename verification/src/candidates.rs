//! Where a POSIX `sh` may stand on the host, in the order in which the places are tried.
use std::path::PathBuf;
use vstd::prelude::*;

use crate::host_path;

verus! {

/// The names under which a directory of the search path may hold the shell.
pub const SH_NAMES: [&'static str; 2] = ["sh", "sh.exe"];

/// Where Git for Windows keeps the `sh.exe` that it brings along, relative to its own install root.
/// Neither directory is on the search path by default.
pub const WINDOWS_GIT_SH_SUFFIXES: [&'static str; 2] = ["bin\\sh.exe", "usr\\bin\\sh.exe"];

/// The environment variables that may name a directory under which Git for Windows is installed for
/// the whole machine, in the order in which they are consulted.
pub const WINDOWS_GIT_ROOT_VARS: [&'static str; 3] = [
    "ProgramFiles",
    "ProgramFiles(x86)",
    "ProgramW6432",
];

/// The environment variable that may name the directory under which Git for Windows is installed for
/// one user.
pub const LOCAL_APP_DATA_VAR: &'static str = "LocalAppData";

/// Under each directory, in order, each of the two names, in order.
pub open spec fn fanned(dirs: Seq<PathBuf>, names: [&'static str; 2]) -> Seq<PathBuf> {
    Seq::new(2 * dirs.len(), |i: int| host_path::joined(dirs[i / 2], names@[i % 2]@))
}

/// The paths at which a shell on the search path would be found.
pub open spec fn search_path_sh_paths(dirs: Seq<PathBuf>) -> Seq<PathBuf> {
    fanned(dirs, SH_NAMES)
}

/// Where Git for Windows is installed under the given roots: for the machine first, in the order of
/// the roots, then for the user, one segment deeper.
pub open spec fn git_homes(machine_roots: Seq<PathBuf>, local_app_data: Option<PathBuf>) -> Seq<
    PathBuf,
> {
    let machine = machine_roots.map_values(|root: PathBuf| host_path::joined(root, "Git"@));
    match local_app_data {
        Some(local) => machine.push(
            host_path::joined(host_path::joined(local, "Programs"@), "Git"@),
        ),
        None => machine,
    }
}

/// The paths at which the `sh.exe` of Git for Windows would be found.
pub open spec fn windows_git_sh_paths(
    machine_roots: Seq<PathBuf>,
    local_app_data: Option<PathBuf>,
) -> Seq<PathBuf> {
    fanned(git_homes(machine_roots, local_app_data), WINDOWS_GIT_SH_SUFFIXES)
}

/// An optional path, without the borrow.
pub open spec fn unborrowed(path: Option<&PathBuf>) -> Option<PathBuf> {
    match path {
        Some(p) => Some(*p),
        None => None,
    }
}

/// Each of the two names under `dir`, added to `out` in order.
fn push_pair(out: &mut Vec<PathBuf>, dir: &PathBuf, names: [&'static str; 2])
    ensures
        final(out)@ == old(out)@ + seq![
            host_path::joined(*dir, names@[0]@),
            host_path::joined(*dir, names@[1]@),
        ],
        forall|k: int|
            0 <= k < 2 && host_path::plain_relative(#[trigger] names@[k]@) ==> host_path::ends_with(
                host_path::path_text(final(out)@[old(out)@.len() + k]),
                names@[k]@,
            ),
{
    let first = host_path::join(dir, names[0]);
    let second = host_path::join(dir, names[1]);
    out.push(first);
    out.push(second);
    assert(out@[old(out)@.len() as int] == first);
}

/// The two suffixes are plain relative paths.
proof fn suffixes_are_plain()
    ensures
        host_path::plain_relative(WINDOWS_GIT_SH_SUFFIXES@[0]@),
        host_path::plain_relative(WINDOWS_GIT_SH_SUFFIXES@[1]@),
{
    reveal_strlit("bin\\sh.exe");
    reveal_strlit("usr\\bin\\sh.exe");
}

/// The paths at which a shell would stand in the directories of the search path.
pub fn search_path_sh_candidates(dirs: &Vec<PathBuf>) -> (out: Vec<PathBuf>)
    ensures
        out@ == search_path_sh_paths(dirs@),
        out@.len() == 2 * dirs@.len(),
        forall|i: int|
            0 <= i < dirs@.len() ==> {
                &&& out@[2 * i] == host_path::joined(#[trigger] dirs@[i], "sh"@)
                &&& out@[2 * i + 1] == host_path::joined(dirs@[i], "sh.exe"@)
            },
{
    let mut out: Vec<PathBuf> = Vec::new();
    for i in 0..dirs.len()
        invariant
            out@ == search_path_sh_paths(dirs@.take(i as int)),
    {
        push_pair(&mut out, &dirs[i], SH_NAMES);
        assert(out@ =~= search_path_sh_paths(dirs@.take(i + 1)));
    }
    assert(dirs@.take(dirs@.len() as int) =~= dirs@);
    proof {
        search_path_paths_outright(dirs@);
    }
    out
}

/// The paths at which to look for the `sh.exe` of Git for Windows, in priority order, given whatever
/// install roots the environment names.
///
/// Each path, as text, ends in the suffix that it was made with.
pub fn windows_git_sh_candidates(
    machine_roots: &[PathBuf],
    local_app_data: Option<&PathBuf>,
) -> (out: Vec<PathBuf>)
    ensures
        out@ == windows_git_sh_paths(machine_roots@, unborrowed(local_app_data)),
        out@.len() == 2 * machine_roots@.len() + (if local_app_data is Some {
            2int
        } else {
            0
        }),
        forall|i: int|
            0 <= i < machine_roots@.len() ==> {
                &&& out@[2 * i] == host_path::joined(
                    host_path::joined(#[trigger] machine_roots@[i], "Git"@),
                    "bin\\sh.exe"@,
                )
                &&& out@[2 * i + 1] == host_path::joined(
                    host_path::joined(machine_roots@[i], "Git"@),
                    "usr\\bin\\sh.exe"@,
                )
            },
        local_app_data matches Some(local) ==> {
            let home = host_path::joined(host_path::joined(*local, "Programs"@), "Git"@);
            &&& out@[out@.len() - 2] == host_path::joined(home, "bin\\sh.exe"@)
            &&& out@[out@.len() - 1] == host_path::joined(
                home,
                "usr\\bin\\sh.exe"@,
            )
        },
        forall|i: int|
            0 <= i < out@.len() ==> host_path::ends_with(
                host_path::path_text(#[trigger] out@[i]),
                WINDOWS_GIT_SH_SUFFIXES@[i % 2]@,
            ),
{
    proof {
        suffixes_are_plain();
    }
    let mut out: Vec<PathBuf> = Vec::new();
    for i in 0..machine_roots.len()
        invariant
            host_path::plain_relative(WINDOWS_GIT_SH_SUFFIXES@[0]@),
            host_path::plain_relative(WINDOWS_GIT_SH_SUFFIXES@[1]@),
            out@ == windows_git_sh_paths(machine_roots@.take(i as int), None),
            forall|k: int|
                0 <= k < out@.len() ==> host_path::ends_with(
                    host_path::path_text(#[trigger] out@[k]),
                    WINDOWS_GIT_SH_SUFFIXES@[k % 2]@,
                ),
    {
        let home = host_path::join(&machine_roots[i], "Git");
        push_pair(&mut out, &home, WINDOWS_GIT_SH_SUFFIXES);
        assert(out@ =~= windows_git_sh_paths(machine_roots@.take(i + 1), None));
    }
    assert(machine_roots@.take(machine_roots@.len() as int) =~= machine_roots@);
    if let Some(local) = local_app_data {
        let programs = host_path::join(local, "Programs");
        let home = host_path::join(&programs, "Git");
        push_pair(&mut out, &home, WINDOWS_GIT_SH_SUFFIXES);
        assert(out@ =~= windows_git_sh_paths(machine_roots@, Some(*local)));
    }
    proof {
        git_paths_outright(machine_roots@, unborrowed(local_app_data));
    }
    out
}

/// Without an install root there is no path to try.
pub proof fn no_roots_no_candidates()
    ensures
        windows_git_sh_paths(Seq::empty(), None) == Seq::<PathBuf>::empty(),
{
}

/// Each install root adds its own two paths and no others; those of an earlier root come before
/// those of a later one, and those of the user's root come last.
pub proof fn roots_contribute_in_order(
    earlier: Seq<PathBuf>,
    later: Seq<PathBuf>,
    local_app_data: Option<PathBuf>,
)
    ensures
        windows_git_sh_paths(earlier + later, local_app_data) == windows_git_sh_paths(earlier, None)
            + windows_git_sh_paths(later, local_app_data),
{
    assert(windows_git_sh_paths(earlier + later, local_app_data) =~= windows_git_sh_paths(
        earlier,
        None,
    ) + windows_git_sh_paths(later, local_app_data));
}

/// What one install root for the machine contributes: the `sh.exe` under `Git` and `bin`, then the one
/// under `Git`, `usr` and `bin`.
pub proof fn machine_root_contributes_its_two_paths(root: PathBuf)
    ensures
        windows_git_sh_paths(seq![root], None) == seq![
            host_path::joined(host_path::joined(root, "Git"@), "bin\\sh.exe"@),
            host_path::joined(host_path::joined(root, "Git"@), "usr\\bin\\sh.exe"@),
        ],
{
    assert(windows_git_sh_paths(seq![root], None) =~= seq![
        host_path::joined(host_path::joined(root, "Git"@), "bin\\sh.exe"@),
        host_path::joined(host_path::joined(root, "Git"@), "usr\\bin\\sh.exe"@),
    ]);
}

/// What the install root of the user contributes: the same two paths, one segment deeper, under
/// `Programs`.
pub proof fn user_root_contributes_its_two_paths(local: PathBuf)
    ensures
        windows_git_sh_paths(Seq::empty(), Some(local)) == seq![
            host_path::joined(
                host_path::joined(host_path::joined(local, "Programs"@), "Git"@),
                "bin\\sh.exe"@,
            ),
            host_path::joined(
                host_path::joined(host_path::joined(local, "Programs"@), "Git"@),
                "usr\\bin\\sh.exe"@,
            ),
        ],
{
    assert(windows_git_sh_paths(Seq::empty(), Some(local)) =~= seq![
        host_path::joined(
            host_path::joined(host_path::joined(local, "Programs"@), "Git"@),
            "bin\\sh.exe"@,
        ),
        host_path::joined(
            host_path::joined(host_path::joined(local, "Programs"@), "Git"@),
            "usr\\bin\\sh.exe"@,
        ),
    ]);
}

/// All the paths for all the roots: two for each root and no others, each at its place.
pub proof fn git_paths_outright(machine_roots: Seq<PathBuf>, local_app_data: Option<PathBuf>)
    ensures
        ({
            let paths = windows_git_sh_paths(machine_roots, local_app_data);
            let n = machine_roots.len() as int;
            &&& paths.len() == 2 * n + (if local_app_data is Some {
                2int
            } else {
                0
            })
            &&& forall|i: int|
                0 <= i < n ==> {
                    &&& paths[2 * i] == host_path::joined(
                        host_path::joined(#[trigger] machine_roots[i], "Git"@),
                        "bin\\sh.exe"@,
                    )
                    &&& paths[2 * i + 1] == host_path::joined(
                        host_path::joined(machine_roots[i], "Git"@),
                        "usr\\bin\\sh.exe"@,
                    )
                }
            &&& local_app_data matches Some(local) ==> {
                let home = host_path::joined(host_path::joined(local, "Programs"@), "Git"@);
                &&& paths[2 * n] == host_path::joined(home, "bin\\sh.exe"@)
                &&& paths[2 * n + 1] == host_path::joined(home, "usr\\bin\\sh.exe"@)
            }
        }),
{
}

/// What one directory of the search path contributes: `sh` in it, then `sh.exe` in it. A directory
/// that comes earlier is tried earlier, and nothing else is tried.
pub proof fn search_path_directories_contribute_in_order(
    earlier: Seq<PathBuf>,
    dir: PathBuf,
    later: Seq<PathBuf>,
)
    ensures
        search_path_sh_paths(Seq::empty()) == Seq::<PathBuf>::empty(),
        search_path_sh_paths(earlier + seq![dir] + later) == search_path_sh_paths(earlier) + seq![
            host_path::joined(dir, "sh"@),
            host_path::joined(dir, "sh.exe"@),
        ] + search_path_sh_paths(later),
{
    assert(search_path_sh_paths(earlier + seq![dir] + later) =~= search_path_sh_paths(earlier)
        + seq![host_path::joined(dir, "sh"@), host_path::joined(dir, "sh.exe"@)]
        + search_path_sh_paths(later));
}

/// All the paths for all the directories of the search path, each at its place.
pub proof fn search_path_paths_outright(dirs: Seq<PathBuf>)
    ensures
        search_path_sh_paths(dirs).len() == 2 * dirs.len(),
        forall|i: int|
            0 <= i < dirs.len() ==> {
                &&& search_path_sh_paths(dirs)[2 * i] == host_path::joined(
                    #[trigger] dirs[i],
                    "sh"@,
                )
                &&& search_path_sh_paths(dirs)[2 * i + 1] == host_path::joined(
                    dirs[i],
                    "sh.exe"@,
                )
            },
{
}

} // verus!
