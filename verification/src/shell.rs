//! The interpreter that runs a send.
use std::path::PathBuf;
use vstd::prelude::*;

use crate::host_path;

verus! {

/// The bare name of the shell, left to the host to resolve when the send is spawned.
pub const BARE_SH: &'static str = "sh";

/// What the path of a shell outside the search path ends in.
pub const SH_EXE: &'static str = "sh.exe";

/// The bare name of the shell, or the path of an `sh.exe`.
pub open spec fn names_a_shell(text: Seq<char>) -> bool {
    text == BARE_SH@ || host_path::ends_with(text, SH_EXE@)
}

/// The interpreter of a send, as the first entry of its argument vector. It always names a shell.
pub struct Shell {
    name: String,
}

impl View for Shell {
    type V = Seq<char>;

    closed spec fn view(&self) -> Seq<char> {
        self.name@
    }
}

impl Shell {
    /// It names a shell.
    #[verifier::type_invariant]
    pub open spec fn wf(self) -> bool {
        names_a_shell(self@)
    }

    /// The shell by its bare name.
    pub fn bare() -> (shell: Self)
        ensures
            shell@ == BARE_SH@,
            shell@ == "sh"@,
    {
        Shell { name: BARE_SH.to_string() }
    }

    /// The shell at `path`.
    pub(crate) fn at(path: &PathBuf) -> (shell: Self)
        requires
            host_path::ends_with(host_path::path_text(*path), SH_EXE@),
        ensures
            shell@ == host_path::path_text(*path),
    {
        Shell { name: host_path::to_text(path) }
    }

    /// The entry that names the shell in an argument vector.
    pub fn argv0(&self) -> (text: String)
        ensures
            text@ == self@,
            names_a_shell(self@),
    {
        proof {
            use_type_invariant(self);
        }
        self.name.clone()
    }
}

impl Clone for Shell {
    fn clone(&self) -> (shell: Self)
        ensures
            shell@ == self@,
    {
        proof {
            use_type_invariant(self);
        }
        Shell { name: self.name.clone() }
    }
}

/// A text names a shell where it is `sh`, or any text with `sh.exe` behind it, and nowhere else.
pub proof fn shell_names_are_sh_or_some_sh_exe(text: Seq<char>)
    ensures
        names_a_shell(text) <==> (text == "sh"@ || exists|front: Seq<char>|
            text == #[trigger] (front + "sh.exe"@)),
{
    host_path::ends_with_means_front_and_tail(text, "sh.exe"@);
}

} // verus!
