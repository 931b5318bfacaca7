use std::path::{Path, PathBuf};

use zj_radar_pipe::candidates::{
    search_path_sh_candidates, windows_git_sh_candidates, LOCAL_APP_DATA_VAR, WINDOWS_GIT_ROOT_VARS,
};

/// A root for the machine yields both the `bin` and the `usr\bin` candidate under `Git`. The expected
/// paths are joined, not written out, so that this holds on every host.
#[test]
fn windows_git_sh_candidates_covers_bin_and_usr_bin_per_machine_root() {
    let root = PathBuf::from(r"C:\Program Files");
    let candidates = windows_git_sh_candidates(&[root.clone()], None);
    assert_eq!(
        candidates,
        vec![
            Path::new(&root).join("Git").join("bin\\sh.exe"),
            Path::new(&root).join("Git").join("usr\\bin\\sh.exe"),
        ]
    );
}

/// The root for the user carries one more segment, `Programs`.
#[test]
fn windows_git_sh_candidates_adds_the_per_user_programs_segment() {
    let local = PathBuf::from(r"C:\Users\x\AppData\Local");
    let candidates = windows_git_sh_candidates(&[], Some(&local));
    assert_eq!(
        candidates,
        vec![
            Path::new(&local).join("Programs").join("Git").join("bin\\sh.exe"),
            Path::new(&local).join("Programs").join("Git").join("usr\\bin\\sh.exe"),
        ]
    );
}

/// Each of several roots for the machine adds its own pair, in order, with the user's root last.
#[test]
fn windows_git_sh_candidates_orders_multiple_roots_machine_before_user() {
    let a = PathBuf::from(r"C:\Program Files");
    let b = PathBuf::from(r"C:\Program Files (x86)");
    let local = PathBuf::from(r"C:\Users\x\AppData\Local");
    let candidates = windows_git_sh_candidates(&[a.clone(), b.clone()], Some(&local));
    assert_eq!(
        candidates,
        vec![
            Path::new(&a).join("Git").join("bin\\sh.exe"),
            Path::new(&a).join("Git").join("usr\\bin\\sh.exe"),
            Path::new(&b).join("Git").join("bin\\sh.exe"),
            Path::new(&b).join("Git").join("usr\\bin\\sh.exe"),
            Path::new(&local).join("Programs").join("Git").join("bin\\sh.exe"),
            Path::new(&local).join("Programs").join("Git").join("usr\\bin\\sh.exe"),
        ]
    );
}

/// Without a root there are no candidates.
#[test]
fn windows_git_sh_candidates_empty_when_no_roots_found() {
    assert!(windows_git_sh_candidates(&[], None).is_empty());
}

#[test]
fn roots_contribute_one_after_the_other() {
    let a = PathBuf::from("/a");
    let b = PathBuf::from("/b");
    let local = PathBuf::from("/l");
    let mut parts = windows_git_sh_candidates(&[a.clone()], None);
    parts.extend(windows_git_sh_candidates(&[b.clone()], Some(&local)));
    assert_eq!(windows_git_sh_candidates(&[a, b], Some(&local)), parts);
}

#[test]
fn candidates_end_in_their_suffix_and_start_with_their_root() {
    let candidates = windows_git_sh_candidates(
        &[PathBuf::from("root"), PathBuf::from("trailing/"), PathBuf::from("")],
        Some(&PathBuf::from("local")),
    );
    assert_eq!(candidates.len(), 8);
    for (i, path) in candidates.iter().enumerate() {
        let text = path.to_string_lossy().into_owned();
        assert!(text.ends_with(if i % 2 == 0 { "bin\\sh.exe" } else { "usr\\bin\\sh.exe" }));
    }
    assert!(candidates[0].starts_with("root"));
    assert!(candidates[2].starts_with("trailing"));
    assert!(candidates[4].starts_with("Git"));
    assert!(candidates[6].starts_with("local"));
}

#[test]
fn search_path_candidates_try_both_names_in_each_directory() {
    let dirs = vec![PathBuf::from("/bin"), PathBuf::from("/opt/tools")];
    assert_eq!(
        search_path_sh_candidates(&dirs),
        vec![
            Path::new("/bin").join("sh"),
            Path::new("/bin").join("sh.exe"),
            Path::new("/opt/tools").join("sh"),
            Path::new("/opt/tools").join("sh.exe"),
        ]
    );
    assert!(search_path_sh_candidates(&vec![]).is_empty());
}

#[test]
fn root_variables_have_their_names() {
    assert_eq!(WINDOWS_GIT_ROOT_VARS, ["ProgramFiles", "ProgramFiles(x86)", "ProgramW6432"]);
    assert_eq!(LOCAL_APP_DATA_VAR, "LocalAppData");
}
