//! Requests to the external command-line toolchain, their captured outputs,
//! and the privilege-escalation predicate.
use vstd::prelude::*;
use vstd::string::*;

use crate::text::{eq_str, spec_starts_with, starts_with_str};

verus! {


/// Captured output of one finished external command.
#[derive(Debug, Clone, PartialEq)]
pub struct CommandOutput {
    pub exit_code: i32,
    pub stdout: String,
    pub stderr: String,
}

impl CommandOutput {
    /// Success is exactly exit code zero.
    pub fn success(&self) -> (r: bool)
        ensures
            r == (self.exit_code == 0),
    {
        self.exit_code == 0
    }
}

/// The external programs the library drives.
#[derive(Debug, Clone, Copy, PartialEq, Eq, Structural)]
pub enum Tool {
    Virsh,
    VirtInstall,
    QemuImg,
    Mkdir,
    Cp,
    Chown,
    Chmod,
    Rm,
}

/// One fully planned invocation: which program, its arguments, and whether
/// it must run through the elevation wrapper.
#[derive(Debug, Clone, PartialEq)]
pub struct CmdRequest {
    pub tool: Tool,
    pub args: Vec<String>,
    pub elevated: bool,
}

/// The argument list of a request, as character sequences.
pub open spec fn spec_args(r: CmdRequest) -> Seq<Seq<char>> {
    r.args.deep_view()
}

/// `p` lies at or under the directory `dir` (component-wise, as paths).
pub open spec fn spec_path_under(p: Seq<char>, dir: Seq<char>) -> bool {
    p == dir || spec_starts_with(p, dir.push('/'))
}

/// Paths under these host-protected prefixes need the elevation wrapper.
pub open spec fn spec_needs_privilege(p: Seq<char>) -> bool {
    ||| spec_path_under(p, "/var/lib"@)
    ||| spec_path_under(p, "/usr"@)
    ||| spec_path_under(p, "/etc"@)
}

fn path_under(path: &str, dir: &str, dir_slash: &str) -> (r: bool)
    requires
        dir_slash@ == dir@.push('/'),
    ensures
        r == spec_path_under(path@, dir@),
{
    eq_str(path, dir) || starts_with_str(path, dir_slash)
}

/// The pure predicate that selects the elevated invocation front-end.
pub fn needs_privilege(path: &str) -> (r: bool)
    ensures
        r == spec_needs_privilege(path@),
{
    proof {
        reveal_strlit("/var/lib");
        reveal_strlit("/var/lib/");
        reveal_strlit("/usr");
        reveal_strlit("/usr/");
        reveal_strlit("/etc");
        reveal_strlit("/etc/");
        assert("/var/lib/"@ =~= "/var/lib"@.push('/'));
        assert("/usr/"@ =~= "/usr"@.push('/'));
        assert("/etc/"@ =~= "/etc"@.push('/'));
    }
    path_under(path, "/var/lib", "/var/lib/") || path_under(path, "/usr", "/usr/") || path_under(
        path,
        "/etc",
        "/etc/",
    )
}

} // verus!
