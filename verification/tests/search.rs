use std::path::{Path, PathBuf};

use zj_radar_pipe::search::{Request, ShSearch};

struct Host {
    search_path: Option<Vec<PathBuf>>,
    machine_roots: Vec<Option<PathBuf>>,
    local_app_data: Option<PathBuf>,
    files: Vec<PathBuf>,
}

/// A host without a search path, without install roots and without files.
fn bare_host() -> Host {
    Host {
        search_path: None,
        machine_roots: vec![None, None, None],
        local_app_data: None,
        files: vec![],
    }
}

/// Answers a search until it is over. Gives its result, and the paths that it asked for.
fn run(host: Host) -> (String, Vec<PathBuf>, bool) {
    let mut asked: Vec<PathBuf> = vec![];
    let mut read_roots = false;
    let mut search = ShSearch::start(host.search_path);
    loop {
        search = match search.request() {
            Request::Probe(path) => {
                asked.push(path.clone());
                let is_file = host.files.contains(path);
                search.probed(is_file)
            }
            Request::ReadRoots => {
                read_roots = true;
                search.roots_read(host.machine_roots.clone(), host.local_app_data.clone())
            }
            Request::Done(sh) => return (sh.argv0(), asked, read_roots),
        };
    }
}

fn path(parts: &[&str]) -> PathBuf {
    let mut out = PathBuf::from(parts[0]);
    for part in &parts[1..] {
        out = out.join(part);
    }
    out
}

#[test]
fn shell_on_the_search_path_ends_the_search() {
    let mut host = bare_host();
    host.search_path = Some(vec![PathBuf::from("/x"), PathBuf::from("/y"), PathBuf::from("/z")]);
    host.machine_roots = vec![Some(PathBuf::from("/g")), None, None];
    host.files = vec![path(&["/y", "sh"]), path(&["/g", "Git", "bin\\sh.exe"])];
    let (sh, asked, read_roots) = run(host);
    assert_eq!(sh, "sh");
    assert_eq!(asked, vec![path(&["/x", "sh"]), path(&["/x", "sh.exe"]), path(&["/y", "sh"])]);
    assert!(!read_roots);
}

#[test]
fn sh_exe_on_the_search_path_gives_the_bare_name() {
    let mut host = bare_host();
    host.search_path = Some(vec![PathBuf::from("/x")]);
    host.files = vec![path(&["/x", "sh.exe"])];
    assert_eq!(run(host).0, "sh");
}

#[test]
fn first_git_shell_in_priority_order_is_taken() {
    let mut host = bare_host();
    host.search_path = Some(vec![PathBuf::from("/x")]);
    host.machine_roots = vec![Some(PathBuf::from("/a")), None, Some(PathBuf::from("/c"))];
    host.local_app_data = Some(PathBuf::from("/l"));
    host.files = vec![
        path(&["/l", "Programs", "Git", "bin\\sh.exe"]),
        path(&["/c", "Git", "usr\\bin\\sh.exe"]),
    ];
    let (sh, asked, read_roots) = run(host);
    assert_eq!(sh, path(&["/c", "Git", "usr\\bin\\sh.exe"]).to_string_lossy());
    assert!(read_roots);
    assert_eq!(
        asked,
        vec![
            path(&["/x", "sh"]),
            path(&["/x", "sh.exe"]),
            path(&["/a", "Git", "bin\\sh.exe"]),
            path(&["/a", "Git", "usr\\bin\\sh.exe"]),
            path(&["/c", "Git", "bin\\sh.exe"]),
            path(&["/c", "Git", "usr\\bin\\sh.exe"]),
        ]
    );
}

#[test]
fn user_root_is_the_last_resort() {
    let mut host = bare_host();
    host.machine_roots = vec![None, Some(PathBuf::from("/b")), None];
    host.local_app_data = Some(PathBuf::from("/l"));
    host.files = vec![path(&["/l", "Programs", "Git", "bin\\sh.exe"])];
    let (sh, asked, _) = run(host);
    assert!(Path::new(&sh).starts_with("/l"));
    assert!(sh.ends_with("sh.exe"));
    assert_eq!(asked.len(), 3);
}

#[test]
fn nothing_found_gives_the_bare_name() {
    let mut host = bare_host();
    host.search_path = Some(vec![PathBuf::from("/x")]);
    host.machine_roots = vec![Some(PathBuf::from("/a")), Some(PathBuf::from("/b")), None];
    host.local_app_data = Some(PathBuf::from("/l"));
    let (sh, asked, read_roots) = run(host);
    assert_eq!(sh, "sh");
    assert_eq!(asked.len(), 8);
    assert!(read_roots);
}

#[test]
fn without_search_path_and_roots_nothing_is_probed() {
    let (sh, asked, read_roots) = run(bare_host());
    assert_eq!(sh, "sh");
    assert!(asked.is_empty());
    assert!(read_roots);

    let mut host = bare_host();
    host.search_path = Some(vec![]);
    let (sh, asked, read_roots) = run(host);
    assert_eq!(sh, "sh");
    assert!(asked.is_empty());
    assert!(read_roots);
}
