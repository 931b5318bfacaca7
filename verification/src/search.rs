//! The search for the shell that runs a send.
//!
//! Hosts with a POSIX userland have `sh` on their search path. A Windows host often has not, even with
//! Git for Windows installed, and every send would then fail silently. So the search path is tried
//! first, then the places where Git for Windows keeps its own `sh.exe`; where nothing is found, the
//! bare name is left to fail when it is spawned.
//!
//! The search does no input or output of its own. It says what it has to know next, and is told.
use std::path::PathBuf;
use vstd::prelude::*;

use crate::candidates;
use crate::host_path;
use crate::shell;
use crate::shell::Shell;

verus! {

/// How far a search has come.
pub enum SearchView {
    /// Looking on the search path; `rest` is what has not been tried yet.
    OnPath { rest: Seq<PathBuf> },
    /// The search path holds no shell; the install roots are not known yet.
    NeedRoots,
    /// Looking under the install roots; `rest` is what has not been tried yet.
    InRoots { rest: Seq<PathBuf> },
    /// The search is over, and its result is `sh`.
    Settled { sh: Seq<char> },
}

/// Looking on the search path, with `rest` still to try.
pub open spec fn looking_on_path(rest: Seq<PathBuf>) -> SearchView {
    if rest.len() == 0 {
        SearchView::NeedRoots
    } else {
        SearchView::OnPath { rest }
    }
}

/// Looking under the install roots, with `rest` still to try.
pub open spec fn looking_in_roots(rest: Seq<PathBuf>) -> SearchView {
    if rest.len() == 0 {
        SearchView::Settled { sh: shell::BARE_SH@ }
    } else {
        SearchView::InRoots { rest }
    }
}

/// A search at its start, on a host with this search path, or with none.
pub open spec fn started(search_path: Option<Seq<PathBuf>>) -> SearchView {
    match search_path {
        Some(dirs) => looking_on_path(candidates::search_path_sh_paths(dirs)),
        None => SearchView::NeedRoots,
    }
}

/// The search after it has been told whether there is a file at the first of the paths that are left.
pub open spec fn after_probe(search: SearchView, is_file: bool) -> SearchView {
    match search {
        SearchView::OnPath { rest } => if is_file {
            SearchView::Settled { sh: shell::BARE_SH@ }
        } else {
            looking_on_path(rest.skip(1))
        },
        SearchView::InRoots { rest } => if is_file {
            SearchView::Settled { sh: host_path::path_text(rest[0]) }
        } else {
            looking_in_roots(rest.skip(1))
        },
        _ => search,
    }
}

/// The values of those variables that are set, in order.
pub open spec fn present(values: Seq<Option<PathBuf>>) -> Seq<PathBuf>
    decreases values.len(),
{
    if values.len() == 0 {
        Seq::empty()
    } else {
        match values.last() {
            Some(value) => present(values.drop_last()).push(value),
            None => present(values.drop_last()),
        }
    }
}

/// The search after it has been told the values of the variables that may name an install root.
pub open spec fn after_roots(
    machine_roots: Seq<Option<PathBuf>>,
    local_app_data: Option<PathBuf>,
) -> SearchView {
    looking_in_roots(candidates::windows_git_sh_paths(present(machine_roots), local_app_data))
}

/// What a search has to know next.
pub enum Request<'a> {
    /// Whether there is a regular file at this path.
    Probe(&'a PathBuf),
    /// The values of the variables that may name an install root of Git for Windows.
    ReadRoots,
    /// Nothing: this is the shell.
    Done(&'a Shell),
}

enum Stage {
    OnPath { probes: Vec<PathBuf>, next: usize },
    NeedRoots,
    InRoots { probes: Vec<PathBuf>, next: usize },
    Settled { shell: Shell },
}

/// A search for the shell, in progress or done.
pub struct ShSearch {
    stage: Stage,
}

impl View for ShSearch {
    type V = SearchView;

    closed spec fn view(&self) -> SearchView {
        match self.stage {
            Stage::OnPath { probes, next } => SearchView::OnPath { rest: probes@.skip(next as int) },
            Stage::NeedRoots => SearchView::NeedRoots,
            Stage::InRoots { probes, next } => SearchView::InRoots { rest: probes@.skip(next as int) },
            Stage::Settled { shell } => SearchView::Settled { sh: shell@ },
        }
    }
}

/// Every path, as text, ends in the name of the shell.
spec fn all_sh_exe(paths: Seq<PathBuf>) -> bool {
    forall|i: int|
        0 <= i < paths.len() ==> host_path::ends_with(
            host_path::path_text(#[trigger] paths[i]),
            shell::SH_EXE@,
        )
}

/// A text that ends in one of the suffixes of Git for Windows ends in the name of the shell.
proof fn suffix_ends_in_sh_exe(text: Seq<char>, k: int)
    requires
        0 <= k < 2,
        host_path::ends_with(text, candidates::WINDOWS_GIT_SH_SUFFIXES@[k]@),
    ensures
        host_path::ends_with(text, shell::SH_EXE@),
{
    reveal_strlit("bin\\sh.exe");
    reveal_strlit("usr\\bin\\sh.exe");
    reveal_strlit("sh.exe");
    let suffix = candidates::WINDOWS_GIT_SH_SUFFIXES@[k]@;
    let exe = shell::SH_EXE@;
    assert(exe.is_suffix_of(suffix));
    assert forall|i: int| 0 <= i < exe.len() implies exe[i] == #[trigger] text.subrange(
        text.len() - exe.len(),
        text.len() as int,
    )[i] by {
        let j = suffix.len() - exe.len() + i;
        assert(suffix[j] == text.subrange(text.len() - suffix.len(), text.len() as int)[j]);
        assert(exe[i] == suffix.subrange(suffix.len() - exe.len(), suffix.len() as int)[i]);
    }
}

/// The values that are set, in order.
fn keep_present(values: Vec<Option<PathBuf>>) -> (kept: Vec<PathBuf>)
    ensures
        kept@ == present(values@),
{
    let ghost all = values@;
    let mut kept: Vec<PathBuf> = Vec::new();
    for value in it: values
        invariant
            it.seq() == all,
            kept@ == present(all.take(it.index())),
    {
        assert(all.take(it.index() + 1).drop_last() =~= all.take(it.index()));
        if let Some(path) = value {
            kept.push(path);
        }
    }
    assert(all.take(all.len() as int) =~= all);
    kept
}

impl ShSearch {
    #[verifier::type_invariant]
    spec fn wf(self) -> bool {
        match self.stage {
            Stage::OnPath { probes, next } => next < probes@.len(),
            Stage::NeedRoots => true,
            Stage::InRoots { probes, next } => next < probes@.len() && all_sh_exe(probes@),
            Stage::Settled { .. } => true,
        }
    }

    /// A search on a host with these directories on its search path, or without a search path.
    pub fn start(search_path: Option<Vec<PathBuf>>) -> (search: Self)
        ensures
            search_path matches Some(dirs) ==> search@ == started(Some(dirs@)),
            search_path is None ==> search@ == started(None),
    {
        match search_path {
            Some(dirs) => {
                let probes = candidates::search_path_sh_candidates(&dirs);
                assert(probes@.skip(0) =~= probes@);
                if probes.len() == 0 {
                    ShSearch { stage: Stage::NeedRoots }
                } else {
                    ShSearch { stage: Stage::OnPath { probes, next: 0 } }
                }
            },
            None => ShSearch { stage: Stage::NeedRoots },
        }
    }

    /// What the search has to know next.
    ///
    /// The shell that a finished search hands out is the bare name or the path of an `sh.exe`.
    pub fn request(&self) -> (request: Request<'_>)
        ensures
            match self@ {
                SearchView::OnPath { rest } => {
                    &&& rest.len() > 0
                    &&& request matches Request::Probe(path) && *path == rest[0]
                },
                SearchView::NeedRoots => request is ReadRoots,
                SearchView::InRoots { rest } => {
                    &&& rest.len() > 0
                    &&& request matches Request::Probe(path) && *path == rest[0]
                },
                SearchView::Settled { sh } => {
                    &&& request matches Request::Done(found) && found@ == sh
                    &&& shell::names_a_shell(sh)
                },
            },
    {
        proof {
            use_type_invariant(self);
        }
        match &self.stage {
            Stage::OnPath { probes, next } => Request::Probe(&probes[*next]),
            Stage::NeedRoots => Request::ReadRoots,
            Stage::InRoots { probes, next } => Request::Probe(&probes[*next]),
            Stage::Settled { shell } => {
                proof {
                    use_type_invariant(shell);
                }
                Request::Done(shell)
            },
        }
    }

    /// Tells the search whether there is a regular file at the path that it asked for.
    pub fn probed(self, is_file: bool) -> (search: Self)
        requires
            self@ is OnPath || self@ is InRoots,
        ensures
            search@ == after_probe(self@, is_file),
    {
        proof {
            use_type_invariant(&self);
        }
        match self.stage {
            Stage::OnPath { probes, next } => {
                assert(probes@.skip(next as int).skip(1) =~= probes@.skip(next + 1));
                if is_file {
                    ShSearch { stage: Stage::Settled { shell: Shell::bare() } }
                } else if probes.len() - next > 1 {
                    ShSearch { stage: Stage::OnPath { probes, next: next + 1 } }
                } else {
                    ShSearch { stage: Stage::NeedRoots }
                }
            },
            Stage::InRoots { probes, next } => {
                assert(probes@.skip(next as int).skip(1) =~= probes@.skip(next + 1));
                if is_file {
                    ShSearch { stage: Stage::Settled { shell: Shell::at(&probes[next]) } }
                } else if probes.len() - next > 1 {
                    ShSearch { stage: Stage::InRoots { probes, next: next + 1 } }
                } else {
                    ShSearch { stage: Stage::Settled { shell: Shell::bare() } }
                }
            },
            _ => self,
        }
    }

    /// Tells the search the values of the variables that may name an install root: those of
    /// `WINDOWS_GIT_ROOT_VARS`, in order, and that of `LOCAL_APP_DATA_VAR`.
    pub fn roots_read(
        self,
        machine_roots: Vec<Option<PathBuf>>,
        local_app_data: Option<PathBuf>,
    ) -> (search: Self)
        requires
            self@ is NeedRoots,
        ensures
            search@ == after_roots(machine_roots@, local_app_data),
    {
        let roots = keep_present(machine_roots);
        let probes = candidates::windows_git_sh_candidates(
            roots.as_slice(),
            local_app_data.as_ref(),
        );
        proof {
            assert forall|i: int| 0 <= i < probes@.len() implies host_path::ends_with(
                host_path::path_text(#[trigger] probes@[i]),
                shell::SH_EXE@,
            ) by {
                suffix_ends_in_sh_exe(host_path::path_text(probes@[i]), i % 2);
            }
            assert(probes@.skip(0) =~= probes@);
        }
        if probes.len() == 0 {
            ShSearch { stage: Stage::Settled { shell: Shell::bare() } }
        } else {
            ShSearch { stage: Stage::InRoots { probes, next: 0 } }
        }
    }
}

/// All that a search can learn of a host.
pub struct Host {
    /// The directories of the search path, where there is one.
    pub search_path: Option<Seq<PathBuf>>,
    /// The values of `WINDOWS_GIT_ROOT_VARS`, in order.
    pub machine_roots: Seq<Option<PathBuf>>,
    /// The value of `LOCAL_APP_DATA_VAR`.
    pub local_app_data: Option<PathBuf>,
    /// The paths at which there is a regular file.
    pub files: Set<PathBuf>,
}

impl Host {
    /// A directory of the search path holds a shell.
    pub open spec fn sh_on_path(self) -> bool {
        &&& self.search_path is Some
        &&& exists|i: int|
            0 <= i < self.search_path->0.len() && {
                ||| self.files.contains(host_path::joined(#[trigger] self.search_path->0[i], "sh"@))
                ||| self.files.contains(host_path::joined(self.search_path->0[i], "sh.exe"@))
            }
    }

    /// Where the `sh.exe` of Git for Windows would be found, in priority order.
    pub open spec fn git_paths(self) -> Seq<PathBuf> {
        candidates::windows_git_sh_paths(present(self.machine_roots), self.local_app_data)
    }

    /// The shell of this host: the bare name where the search path holds a shell, or else the first
    /// `sh.exe` of Git for Windows that there is, or else the bare name all the same.
    pub open spec fn sh(self) -> Seq<char> {
        if self.sh_on_path() {
            "sh"@
        } else if exists|i: int| is_first_file(self.files, self.git_paths(), i) {
            let i = choose|i: int| is_first_file(self.files, self.git_paths(), i);
            host_path::path_text(self.git_paths()[i])
        } else {
            "sh"@
        }
    }

    /// What a search is after it has been told what it asked for.
    pub open spec fn told(self, search: SearchView) -> SearchView {
        match search {
            SearchView::OnPath { rest } => after_probe(search, self.files.contains(rest[0])),
            SearchView::NeedRoots => after_roots(self.machine_roots, self.local_app_data),
            SearchView::InRoots { rest } => after_probe(search, self.files.contains(rest[0])),
            SearchView::Settled { .. } => search,
        }
    }

    /// The result of a search that is told what it asks for until it is over.
    pub open spec fn run(self, search: SearchView) -> Seq<char>
        decreases search.phase(), search.left(),
    {
        match search {
            SearchView::Settled { sh } => sh,
            _ => if search.left() > 0 {
                self.run(self.told(search))
            } else {
                Seq::empty()
            },
        }
    }
}

impl SearchView {
    /// How many phases of the search come after this one.
    pub open spec fn phase(self) -> nat {
        match self {
            SearchView::OnPath { .. } => 3,
            SearchView::NeedRoots => 2,
            SearchView::InRoots { .. } => 1,
            SearchView::Settled { .. } => 0,
        }
    }

    /// How many questions are left in this phase, at most.
    pub open spec fn left(self) -> nat {
        match self {
            SearchView::OnPath { rest } => rest.len(),
            SearchView::NeedRoots => 1,
            SearchView::InRoots { rest } => rest.len(),
            SearchView::Settled { .. } => 0,
        }
    }
}

/// There is a file at the path with index `i`, and at none before it.
pub open spec fn is_first_file(files: Set<PathBuf>, paths: Seq<PathBuf>, i: int) -> bool {
    &&& 0 <= i < paths.len()
    &&& files.contains(paths[i])
    &&& forall|j: int| 0 <= j < i ==> !files.contains(#[trigger] paths[j])
}

/// A search on the search path ends at once where there is a file among the paths that are left, and
/// goes on to the install roots where there is none.
proof fn run_on_path(host: Host, rest: Seq<PathBuf>)
    ensures
        (exists|i: int| 0 <= i < rest.len() && host.files.contains(#[trigger] rest[i])) ==> host.run(
            looking_on_path(rest),
        ) == "sh"@,
        (forall|i: int| 0 <= i < rest.len() ==> !host.files.contains(#[trigger] rest[i]))
            ==> host.run(looking_on_path(rest)) == host.run(SearchView::NeedRoots),
    decreases rest.len(),
{
    if rest.len() > 0 {
        reveal_with_fuel(Host::run, 2);
        let tail = rest.skip(1);
        run_on_path(host, tail);
        if !host.files.contains(rest[0]) {
            if exists|i: int| 0 <= i < rest.len() && host.files.contains(#[trigger] rest[i]) {
                let i = choose|i: int| 0 <= i < rest.len() && host.files.contains(#[trigger] rest[i]);
                assert(tail[i - 1] == rest[i]);
            }
            assert(forall|i: int| 0 <= i < tail.len() ==> #[trigger] tail[i] == rest[i + 1]);
        }
    }
}

/// A search under the install roots ends with the first file among the paths that are left, or with
/// the bare name where there is none.
proof fn run_in_roots(host: Host, rest: Seq<PathBuf>)
    ensures
        forall|i: int| #[trigger]
            is_first_file(host.files, rest, i) ==> host.run(looking_in_roots(rest))
                == host_path::path_text(rest[i]),
        (forall|i: int| 0 <= i < rest.len() ==> !host.files.contains(#[trigger] rest[i]))
            ==> host.run(looking_in_roots(rest)) == "sh"@,
    decreases rest.len(),
{
    if rest.len() > 0 {
        reveal_with_fuel(Host::run, 2);
        let tail = rest.skip(1);
        run_in_roots(host, tail);
        assert forall|i: int| #[trigger] is_first_file(host.files, rest, i) implies host.run(
            looking_in_roots(rest),
        ) == host_path::path_text(rest[i]) by {
            if i > 0 {
                assert(!host.files.contains(rest[0]));
                assert forall|j: int| 0 <= j < i - 1 implies !host.files.contains(
                    #[trigger] tail[j],
                ) by {
                    assert(tail[j] == rest[j + 1]);
                }
                assert(tail[i - 1] == rest[i]);
                assert(is_first_file(host.files, tail, i - 1));
            }
        }
        assert(forall|i: int| 0 <= i < tail.len() ==> #[trigger] tail[i] == rest[i + 1]);
    }
}

/// Where the search path holds a shell, the result is the bare name, whatever the install roots hold.
pub proof fn shell_on_path_wins(host: Host)
    requires
        host.sh_on_path(),
    ensures
        host.run(started(host.search_path)) == "sh"@,
{
    let dirs = host.search_path->0;
    let paths = candidates::search_path_sh_paths(dirs);
    let i = choose|i: int|
        0 <= i < dirs.len() && {
            ||| host.files.contains(host_path::joined(#[trigger] dirs[i], "sh"@))
            ||| host.files.contains(host_path::joined(dirs[i], "sh.exe"@))
        };
    assert(paths[2 * i] == host_path::joined(dirs[i], "sh"@));
    assert(paths[2 * i + 1] == host_path::joined(dirs[i], "sh.exe"@));
    run_on_path(host, paths);
}

/// Where the search path holds no shell, the search goes on under the install roots.
proof fn run_reaches_roots(host: Host)
    requires
        !host.sh_on_path(),
    ensures
        host.run(started(host.search_path)) == host.run(looking_in_roots(host.git_paths())),
{
    if host.search_path is Some {
        let dirs = host.search_path->0;
        let paths = candidates::search_path_sh_paths(dirs);
        assert forall|k: int| 0 <= k < paths.len() implies !host.files.contains(
            #[trigger] paths[k],
        ) by {
            assert(paths[k] == host_path::joined(dirs[k / 2], candidates::SH_NAMES@[k % 2]@));
        }
        run_on_path(host, paths);
    }
}

/// Where the search path holds no shell, the result is the first `sh.exe` of Git for Windows that
/// there is, in the order of priority.
pub proof fn first_git_shell_wins(host: Host, i: int)
    requires
        !host.sh_on_path(),
        is_first_file(host.files, host.git_paths(), i),
    ensures
        host.run(started(host.search_path)) == host_path::path_text(host.git_paths()[i]),
{
    run_reaches_roots(host);
    run_in_roots(host, host.git_paths());
}

/// Where nothing is found, the result is the bare name.
pub proof fn nothing_found_leaves_the_bare_name(host: Host)
    requires
        !host.sh_on_path(),
        forall|i: int|
            0 <= i < host.git_paths().len() ==> !host.files.contains(#[trigger] host.git_paths()[i]),
    ensures
        host.run(started(host.search_path)) == "sh"@,
{
    run_reaches_roots(host);
    run_in_roots(host, host.git_paths());
}

/// Where there is a file among the paths, there is a first one.
proof fn first_file_exists(files: Set<PathBuf>, paths: Seq<PathBuf>, i: int)
    requires
        0 <= i < paths.len(),
        files.contains(paths[i]),
    ensures
        exists|k: int| is_first_file(files, paths, k),
    decreases i,
{
    if exists|j: int| 0 <= j < i && files.contains(#[trigger] paths[j]) {
        let j = choose|j: int| 0 <= j < i && files.contains(#[trigger] paths[j]);
        first_file_exists(files, paths, j);
    } else {
        assert(is_first_file(files, paths, i));
    }
}

/// A search that is told what it asks for comes to an end, and its result is the shell of the host.
pub proof fn search_finds_the_shell_of_the_host(host: Host)
    ensures
        host.run(started(host.search_path)) == host.sh(),
{
    let paths = host.git_paths();
    if host.sh_on_path() {
        shell_on_path_wins(host);
    } else if exists|i: int| is_first_file(host.files, paths, i) {
        let i = choose|i: int| is_first_file(host.files, paths, i);
        first_git_shell_wins(host, i);
    } else {
        assert forall|i: int| 0 <= i < paths.len() implies !host.files.contains(
            #[trigger] paths[i],
        ) by {
            if host.files.contains(paths[i]) {
                first_file_exists(host.files, paths, i);
            }
        }
        nothing_found_leaves_the_bare_name(host);
    }
}

/// What is set is kept and what is not set is skipped, each where it stands: the values that are
/// present in a sequence and another behind it are those of the one and then those of the other.
pub proof fn present_keeps_what_is_set_in_order(
    a: Seq<Option<PathBuf>>,
    b: Seq<Option<PathBuf>>,
    p: PathBuf,
)
    ensures
        present(a + b) == present(a) + present(b),
        present(seq![Some(p)]) == seq![p],
        present(seq![None]) == Seq::<PathBuf>::empty(),
        present(Seq::empty()) == Seq::<PathBuf>::empty(),
    decreases b.len(),
{
    reveal_with_fuel(present, 2);
    assert(seq![Some(p)].drop_last() =~= Seq::<Option<PathBuf>>::empty());
    assert(present(seq![Some(p)]) =~= seq![p]);
    assert(seq![None::<PathBuf>].drop_last() =~= Seq::<Option<PathBuf>>::empty());
    if b.len() == 0 {
        assert(a + b =~= a);
        assert(present(a) + present(b) =~= present(a));
    } else {
        present_keeps_what_is_set_in_order(a, b.drop_last(), p);
        assert((a + b).drop_last() =~= a + b.drop_last());
        assert(present(a + b) =~= present(a) + present(b));
    }
}

/// Nothing is made up: every value that is present was set, and every value that was set is present.
pub proof fn present_is_what_was_set(values: Seq<Option<PathBuf>>)
    ensures
        forall|p: PathBuf| #[trigger]
            present(values).contains(p) <==> values.contains(Some(p)),
    decreases values.len(),
{
    if values.len() > 0 {
        let front = values.drop_last();
        present_is_what_was_set(front);
        assert forall|p: PathBuf| #[trigger]
            present(values).contains(p) <==> values.contains(Some(p)) by {
            if present(values).contains(p) {
                let i = choose|i: int| 0 <= i < present(values).len() && present(values)[i] == p;
                if i < present(front).len() {
                    assert(present(front)[i] == p);
                    assert(present(front).contains(p));
                    let j = choose|j: int| 0 <= j < front.len() && front[j] == Some(p);
                    assert(values[j] == Some(p));
                } else {
                    assert(values[values.len() - 1] == Some(p));
                }
            }
            if values.contains(Some(p)) {
                let j = choose|j: int| 0 <= j < values.len() && values[j] == Some(p);
                if j < front.len() {
                    assert(front[j] == Some(p));
                    assert(present(front).contains(p));
                    let i = choose|i: int| 0 <= i < present(front).len() && present(front)[i] == p;
                    assert(present(values)[i] == p);
                } else {
                    assert(present(values)[present(values).len() - 1] == p);
                }
            }
        }
    }
}

/// A search starts with the paths of the search path, where that has a directory, and asks for the
/// install roots at once where it has none or there is no search path.
pub proof fn search_starts_on_the_search_path(dirs: Seq<PathBuf>)
    ensures
        started(None) is NeedRoots,
        dirs.len() == 0 ==> started(Some(dirs)) is NeedRoots,
        dirs.len() > 0 ==> started(Some(dirs)) is OnPath,
        dirs.len() > 0 ==> started(Some(dirs))->OnPath_rest == candidates::search_path_sh_paths(dirs),
{
    candidates::search_path_paths_outright(dirs);
}

/// A file on the search path settles the search on the bare name; otherwise the very next path is
/// tried, and after the last one the install roots are asked for.
pub proof fn search_path_is_tried_path_by_path(first: PathBuf, rest: Seq<PathBuf>)
    ensures
        ({
            let looking = SearchView::OnPath { rest: seq![first] + rest };
            &&& after_probe(looking, true) == (SearchView::Settled { sh: "sh"@ })
            &&& rest.len() > 0 ==> after_probe(looking, false) == (SearchView::OnPath { rest })
            &&& rest.len() == 0 ==> after_probe(looking, false) is NeedRoots
        }),
{
    assert((seq![first] + rest).skip(1) =~= rest);
}

/// A file under the install roots settles the search on the path of that very file; otherwise the
/// very next path is tried, and after the last one the search settles on the bare name.
pub proof fn install_roots_are_tried_path_by_path(first: PathBuf, rest: Seq<PathBuf>)
    ensures
        ({
            let looking = SearchView::InRoots { rest: seq![first] + rest };
            &&& after_probe(looking, true) == (SearchView::Settled {
                sh: host_path::path_text(first),
            })
            &&& rest.len() > 0 ==> after_probe(looking, false) == (SearchView::InRoots { rest })
            &&& rest.len() == 0 ==> after_probe(looking, false) == (SearchView::Settled {
                sh: "sh"@,
            })
        }),
{
    assert((seq![first] + rest).skip(1) =~= rest);
}

/// Once the install roots are known, the paths under those that are set are tried, all of them; where
/// none is set, the search settles on the bare name.
pub proof fn set_roots_are_searched(
    machine_roots: Seq<Option<PathBuf>>,
    local_app_data: Option<PathBuf>,
)
    ensures
        ({
            let next = after_roots(machine_roots, local_app_data);
            let none_set = local_app_data is None && forall|i: int|
                0 <= i < machine_roots.len() ==> #[trigger] machine_roots[i] is None;
            &&& none_set ==> next == (SearchView::Settled { sh: "sh"@ })
            &&& !none_set ==> next is InRoots
            &&& !none_set ==> next->InRoots_rest == candidates::windows_git_sh_paths(
                present(machine_roots),
                local_app_data,
            )
        }),
{
    present_is_what_was_set(machine_roots);
    candidates::git_paths_outright(present(machine_roots), local_app_data);
    let kept = present(machine_roots);
    if kept.len() > 0 {
        assert(kept.contains(kept[0]));
        let i = choose|i: int|
            0 <= i < machine_roots.len() && machine_roots[i] == Some(kept[0]);
        assert(machine_roots[i] is Some);
    } else {
        assert forall|i: int| 0 <= i < machine_roots.len() implies #[trigger] machine_roots[i] is None by {
            if machine_roots[i] is Some {
                assert(machine_roots.contains(Some(machine_roots[i]->0)));
                assert(kept.contains(machine_roots[i]->0));
            }
        }
    }
}

/// A host answers by its files and its variables, and its answers do not change what comes of a
/// search; a search that is over is left as it is.
pub proof fn answers_follow_the_host(host: Host, first: PathBuf, rest: Seq<PathBuf>, sh: Seq<char>)
    ensures
        ({
            let on_path = SearchView::OnPath { rest: seq![first] + rest };
            let in_roots = SearchView::InRoots { rest: seq![first] + rest };
            let is_file = host.files.contains(first);
            &&& host.run(on_path) == host.run(after_probe(on_path, is_file))
            &&& host.run(in_roots) == host.run(after_probe(in_roots, is_file))
            &&& host.run(SearchView::NeedRoots) == host.run(
                after_roots(host.machine_roots, host.local_app_data),
            )
            &&& host.run(SearchView::Settled { sh }) == sh
        }),
{
}

/// A root that is set contributes its paths behind those of the roots that are set before it.
proof fn set_root_has_its_place(values: Seq<Option<PathBuf>>, k: int)
    requires
        0 <= k < values.len(),
        values[k] is Some,
    ensures
        ({
            let before = present(values.take(k));
            &&& before.len() < present(values).len()
            &&& present(values)[before.len() as int] == values[k]->0
            &&& forall|q: int|
                0 <= q < before.len() ==> #[trigger] present(values)[q] == before[q]
        }),
{
    let root = values[k]->0;
    let head = values.take(k);
    let tail = values.skip(k + 1);
    assert(values =~= head + seq![Some(root)] + tail);
    present_keeps_what_is_set_in_order(head, seq![Some(root)], root);
    present_keeps_what_is_set_in_order(head + seq![Some(root)], tail, root);
}

/// Where no root that is set has Git for Windows below it, there is no file at the paths under them.
proof fn roots_without_git_hold_no_file(files: Set<PathBuf>, values: Seq<Option<PathBuf>>)
    requires
        forall|j: int|
            0 <= j < values.len() && values[j] is Some ==> {
                let r = #[trigger] values[j]->0;
                &&& !files.contains(
                    host_path::joined(host_path::joined(r, "Git"@), "bin\\sh.exe"@),
                )
                &&& !files.contains(
                    host_path::joined(host_path::joined(r, "Git"@), "usr\\bin\\sh.exe"@),
                )
            },
    ensures
        ({
            let paths = candidates::windows_git_sh_paths(present(values), None);
            forall|q: int| 0 <= q < paths.len() ==> !files.contains(#[trigger] paths[q])
        }),
{
    let kept = present(values);
    let paths = candidates::windows_git_sh_paths(kept, None);
    present_is_what_was_set(values);
    candidates::git_paths_outright(kept, None);
    assert forall|q: int| 0 <= q < paths.len() implies !files.contains(#[trigger] paths[q]) by {
        let h = q / 2;
        assert(kept.contains(kept[h]));
        let j = choose|j: int| 0 <= j < values.len() && values[j] == Some(kept[h]);
        assert(values[j]->0 == kept[h]);
        assert(q == 2 * h || q == 2 * h + 1);
    }
}

/// Where the paths come in two parts and the first part holds no file, the first file of the second
/// part is the first of all.
proof fn first_file_behind_a_part_without(
    files: Set<PathBuf>,
    without: Seq<PathBuf>,
    behind: Seq<PathBuf>,
    i: int,
)
    requires
        forall|q: int| 0 <= q < without.len() ==> !files.contains(#[trigger] without[q]),
        is_first_file(files, behind, i),
    ensures
        is_first_file(files, without + behind, without.len() + i),
{
    let all = without + behind;
    assert forall|j: int| 0 <= j < without.len() + i implies !files.contains(#[trigger] all[j]) by {
        if j < without.len() {
            assert(all[j] == without[j]);
        } else {
            assert(all[j] == behind[j - without.len()]);
        }
    }
}

/// Where a directory of the search path holds `sh` or `sh.exe`, the result is the bare name.
pub proof fn sh_in_any_directory_of_the_path_gives_the_bare_name(
    host: Host,
    dirs: Seq<PathBuf>,
    i: int,
)
    requires
        host.search_path == Some(dirs),
        0 <= i < dirs.len(),
        host.files.contains(host_path::joined(dirs[i], "sh"@)) || host.files.contains(
            host_path::joined(dirs[i], "sh.exe"@),
        ),
    ensures
        host.run(started(host.search_path)) == "sh"@,
{
    assert(dirs[i] == host.search_path->0[i]);
    shell_on_path_wins(host);
}

/// A search that finds no shell on the search path and no file in the first part of the paths under
/// the install roots takes the first path of the other part, or else the second, if there is a file.
proof fn search_goes_behind_roots_without_git(
    host: Host,
    without: Seq<PathBuf>,
    behind: Seq<PathBuf>,
)
    requires
        !host.sh_on_path(),
        host.git_paths() == without + behind,
        forall|q: int| 0 <= q < without.len() ==> !host.files.contains(#[trigger] without[q]),
        behind.len() >= 2,
    ensures
        ({
            let result = host.run(started(host.search_path));
            &&& host.files.contains(behind[0]) ==> result == host_path::path_text(behind[0])
            &&& !host.files.contains(behind[0]) && host.files.contains(behind[1]) ==> result
                == host_path::path_text(behind[1])
        }),
{
    let n = without.len() as int;
    if host.files.contains(behind[0]) {
        first_file_behind_a_part_without(host.files, without, behind, 0);
        first_git_shell_wins(host, n);
    } else if host.files.contains(behind[1]) {
        assert(is_first_file(host.files, behind, 1));
        first_file_behind_a_part_without(host.files, without, behind, 1);
        first_git_shell_wins(host, n + 1);
    }
}

/// Where no directory of the search path holds a shell, an install root for the machine that is set,
/// that has Git for Windows below it, and before which no root that is set has it, gives the result:
/// the text of its `sh.exe` under `bin`, or else of that under `usr` and `bin`.
pub proof fn first_machine_root_with_git_gives_the_shell(host: Host, k: int, root: PathBuf)
    requires
        host.search_path matches Some(dirs) ==> forall|i: int|
            0 <= i < dirs.len() ==> {
                &&& !host.files.contains(host_path::joined(#[trigger] dirs[i], "sh"@))
                &&& !host.files.contains(host_path::joined(dirs[i], "sh.exe"@))
            },
        0 <= k < host.machine_roots.len(),
        host.machine_roots[k] == Some(root),
        forall|j: int|
            0 <= j < k && host.machine_roots[j] is Some ==> {
                let r = #[trigger] host.machine_roots[j]->0;
                &&& !host.files.contains(
                    host_path::joined(host_path::joined(r, "Git"@), "bin\\sh.exe"@),
                )
                &&& !host.files.contains(
                    host_path::joined(host_path::joined(r, "Git"@), "usr\\bin\\sh.exe"@),
                )
            },
    ensures
        ({
            let bin = host_path::joined(host_path::joined(root, "Git"@), "bin\\sh.exe"@);
            let usr_bin = host_path::joined(host_path::joined(root, "Git"@), "usr\\bin\\sh.exe"@);
            let result = host.run(started(host.search_path));
            &&& host.files.contains(bin) ==> result == host_path::path_text(bin)
            &&& !host.files.contains(bin) && host.files.contains(usr_bin) ==> result
                == host_path::path_text(usr_bin)
        }),
{
    let kept = present(host.machine_roots);
    let head = host.machine_roots.take(k);
    let before = present(head);
    let m = before.len() as int;
    set_root_has_its_place(host.machine_roots, k);
    let from = kept.skip(m);
    assert(kept =~= before + from);
    assert forall|j: int| 0 <= j < head.len() && head[j] is Some implies {
        let r = #[trigger] head[j]->0;
        &&& !host.files.contains(host_path::joined(host_path::joined(r, "Git"@), "bin\\sh.exe"@))
        &&& !host.files.contains(
            host_path::joined(host_path::joined(r, "Git"@), "usr\\bin\\sh.exe"@),
        )
    } by {
        assert(head[j]->0 == host.machine_roots[j]->0);
    }
    roots_without_git_hold_no_file(host.files, head);
    candidates::roots_contribute_in_order(before, from, host.local_app_data);
    candidates::git_paths_outright(from, host.local_app_data);
    assert(from[0] == root);
    search_goes_behind_roots_without_git(
        host,
        candidates::windows_git_sh_paths(before, None),
        candidates::windows_git_sh_paths(from, host.local_app_data),
    );
}

/// Where neither a directory of the search path holds a shell nor an install root for the machine has
/// Git for Windows below it, the install root of the user gives the result, one segment deeper.
pub proof fn user_root_gives_the_shell_last(host: Host, local: PathBuf)
    requires
        host.search_path matches Some(dirs) ==> forall|i: int|
            0 <= i < dirs.len() ==> {
                &&& !host.files.contains(host_path::joined(#[trigger] dirs[i], "sh"@))
                &&& !host.files.contains(host_path::joined(dirs[i], "sh.exe"@))
            },
        forall|j: int|
            0 <= j < host.machine_roots.len() && host.machine_roots[j] is Some ==> {
                let r = #[trigger] host.machine_roots[j]->0;
                &&& !host.files.contains(
                    host_path::joined(host_path::joined(r, "Git"@), "bin\\sh.exe"@),
                )
                &&& !host.files.contains(
                    host_path::joined(host_path::joined(r, "Git"@), "usr\\bin\\sh.exe"@),
                )
            },
        host.local_app_data == Some(local),
    ensures
        ({
            let bin = host_path::joined(host_path::joined(host_path::joined(local, "Programs"@), "Git"@), "bin\\sh.exe"@);
            let usr_bin = host_path::joined(host_path::joined(host_path::joined(local, "Programs"@), "Git"@), "usr\\bin\\sh.exe"@);
            let result = host.run(started(host.search_path));
            &&& host.files.contains(bin) ==> result == host_path::path_text(bin)
            &&& !host.files.contains(bin) && host.files.contains(usr_bin) ==> result
                == host_path::path_text(usr_bin)
        }),
{
    let kept = present(host.machine_roots);
    assert(kept + Seq::<PathBuf>::empty() =~= kept);
    roots_without_git_hold_no_file(host.files, host.machine_roots);
    candidates::roots_contribute_in_order(kept, Seq::empty(), host.local_app_data);
    candidates::user_root_contributes_its_two_paths(local);
    search_goes_behind_roots_without_git(
        host,
        candidates::windows_git_sh_paths(kept, None),
        candidates::windows_git_sh_paths(Seq::empty(), host.local_app_data),
    );
}

/// Where there is no shell in a directory of the search path and none under an install root that is
/// set, the result is the bare name.
pub proof fn bare_name_where_no_place_has_a_shell(host: Host)
    requires
        host.search_path matches Some(dirs) ==> forall|i: int|
            0 <= i < dirs.len() ==> {
                &&& !host.files.contains(host_path::joined(#[trigger] dirs[i], "sh"@))
                &&& !host.files.contains(host_path::joined(dirs[i], "sh.exe"@))
            },
        forall|j: int|
            0 <= j < host.machine_roots.len() && host.machine_roots[j] is Some ==> {
                let r = #[trigger] host.machine_roots[j]->0;
                &&& !host.files.contains(
                    host_path::joined(host_path::joined(r, "Git"@), "bin\\sh.exe"@),
                )
                &&& !host.files.contains(
                    host_path::joined(host_path::joined(r, "Git"@), "usr\\bin\\sh.exe"@),
                )
            },
        host.local_app_data matches Some(local) ==> {
            &&& !host.files.contains(
                host_path::joined(host_path::joined(host_path::joined(local, "Programs"@), "Git"@), "bin\\sh.exe"@),
            )
            &&& !host.files.contains(
                host_path::joined(host_path::joined(host_path::joined(local, "Programs"@), "Git"@), "usr\\bin\\sh.exe"@),
            )
        },
    ensures
        host.run(started(host.search_path)) == "sh"@,
{
    let kept = present(host.machine_roots);
    let paths = host.git_paths();
    let machine = candidates::windows_git_sh_paths(kept, None);
    assert(kept + Seq::<PathBuf>::empty() =~= kept);
    roots_without_git_hold_no_file(host.files, host.machine_roots);
    candidates::roots_contribute_in_order(kept, Seq::empty(), host.local_app_data);
    if host.local_app_data is Some {
        candidates::user_root_contributes_its_two_paths(host.local_app_data->0);
    }
    assert forall|q: int| 0 <= q < paths.len() implies !host.files.contains(#[trigger] paths[q]) by {
        if q < machine.len() {
            assert(paths[q] == machine[q]);
        }
    }
    nothing_found_leaves_the_bare_name(host);
}

} // verus!
