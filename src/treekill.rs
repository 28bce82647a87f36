//! The command that terminates every descendant of a process, by the
//! family of the operating system.

use vstd::prelude::*;
use crate::decimal::{dec_chars, decimal};

verus! {

/// The family of the operating system, which picks the strategy.
#[derive(Debug, Clone, Copy, PartialEq, Eq, Structural)]
pub enum OsFamily {
    Unix,
    Windows,
}

/// A command line: the program and its arguments.
#[derive(Debug, Clone, PartialEq, Eq)]
pub struct KillCommand {
    pub program: String,
    pub args: Vec<String>,
}

/// The program that terminates a process tree.
pub open spec fn tree_kill_program(family: OsFamily) -> Seq<char> {
    match family {
        OsFamily::Unix => "pkill"@,
        OsFamily::Windows => "taskkill"@,
    }
}

/// Its arguments: on Unix the children of `pid` (`-P <pid>`), on Windows
/// the whole tree under `pid`, forced (`/F /T /PID <pid>`).
pub open spec fn tree_kill_args(pid: u32, family: OsFamily) -> Seq<Seq<char>> {
    match family {
        OsFamily::Unix => seq!["-P"@, dec_chars(pid as nat)],
        OsFamily::Windows => seq!["/F"@, "/T"@, "/PID"@, dec_chars(pid as nat)],
    }
}

/// The command that terminates the descendants of process `pid`.
pub fn tree_kill_command(pid: u32, family: OsFamily) -> (r: KillCommand)
    ensures
        r.program@ == tree_kill_program(family),
        r.args@.map_values(|a: String| a@) == tree_kill_args(pid, family),
{
    match family {
        OsFamily::Unix => {
            let args = vec![String::from_str("-P"), decimal(pid as u64)];
            assert(args@.map_values(|a: String| a@) =~= tree_kill_args(pid, family));
            KillCommand { program: String::from_str("pkill"), args }
        },
        OsFamily::Windows => {
            let args = vec![
                String::from_str("/F"),
                String::from_str("/T"),
                String::from_str("/PID"),
                decimal(pid as u64),
            ];
            assert(args@.map_values(|a: String| a@) =~= tree_kill_args(pid, family));
            KillCommand { program: String::from_str("taskkill"), args }
        },
    }
}

} // verus!
