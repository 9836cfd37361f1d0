//! WSL launch payloads: what command line runs inside each configured
//! window. Launching itself (spawning a terminal) is the window launcher
//! collaborator's job; this module only builds the payload it is handed.

use vstd::prelude::*;
use vstd::string::StrSliceExecFns;
use vstd::string::StringExecFns;

use crate::config::WindowConfig;

verus! {

/// A working directory with a leading `~` expanded to `$HOME`.
pub open spec fn expand_home(dir: Seq<char>) -> Seq<char> {
    if dir.len() > 0 && dir[0] == '~' {
        "$HOME"@ + dir.subrange(1, dir.len() as int)
    } else {
        dir
    }
}

/// The shell command one window runs: `cd <dir> && <command>` when a
/// working directory is configured (with `~` expanded), else the command
/// alone.
pub open spec fn wsl_command(w: WindowConfig) -> Seq<char> {
    match w.working_dir {
        Some(dir) => "cd "@ + expand_home(dir@) + " && "@ + w.command@,
        None => w.command@,
    }
}

/// Launcher for WSL windows.
pub struct WslLauncher {
    distribution: String,
}

impl View for WslLauncher {
    type V = Seq<char>;

    closed spec fn view(&self) -> Seq<char> {
        self.distribution@
    }
}

impl WslLauncher {
    /// Create a new WSL launcher for the given distribution.
    pub fn new(distribution: &str) -> (launcher: Self)
        ensures
            launcher@ == distribution@,
    {
        Self { distribution: distribution.to_owned() }
    }

    /// The WSL distribution this launcher starts windows in.
    pub fn distribution(&self) -> (r: &str)
        ensures
            r@ == self@,
    {
        self.distribution.as_str()
    }

    /// Build the command to run inside WSL.
    pub fn build_wsl_command(&self, window: &WindowConfig) -> (r: String)
        ensures
            r@ == wsl_command(*window),
    {
        let mut out = String::new();
        match &window.working_dir {
            Some(dir) => {
                out.append("cd ");
                let d = dir.as_str();
                let n = d.unicode_len();
                if n > 0 && d.get_char(0) == '~' {
                    out.append("$HOME");
                    let rest = d.substring_char(1, n);
                    out.append(rest);
                } else {
                    out.append(d);
                }
                out.append(" && ");
                out.append(window.command.as_str());
            },
            None => {
                out.append(window.command.as_str());
            },
        }
        proof {
            assert(out@ =~= wsl_command(*window));
        }
        out
    }
}

} // verus!
