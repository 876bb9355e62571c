//! Which shell binary a shell mode runs, from the account database or the
//! environment.
use vstd::prelude::*;

use crate::request::ShellMode;

verus! {

/// The superuser's numeric identity.
pub const ROOT_UID: u32 = 0;

/// An account record to look up for its registered shell.
#[derive(Clone, Debug, PartialEq, Eq)]
pub enum AccountQuery {
    /// The account of this name.
    ByName(String),
    /// The account of this numeric identity.
    ByUid(u32),
    /// The account of the invoking user.
    Invoker,
}

/// A shell binary to run, and whether it runs as a login shell.
#[derive(Clone, Debug, PartialEq, Eq)]
pub struct ResolvedShell {
    pub path: String,
    pub login: bool,
}

/// The contents of an optional string.
pub open spec fn opt_view(o: Option<String>) -> Option<Seq<char>> {
    match o {
        Some(s) => Some(s@),
        None => None,
    }
}

/// A resolved shell as its path and its login mode.
pub open spec fn shell_view(o: Option<ResolvedShell>) -> Option<(Seq<char>, bool)> {
    match o {
        Some(r) => Some((r.path@, r.login)),
        None => None,
    }
}

/// Decides which account record, if any, must be looked up to find the
/// shell: the target user's (the superuser's when none is named) for a
/// login shell; the invoking user's for an interactive shell, only where
/// the environment names no shell.
pub fn shell_lookup(mode: ShellMode, user: &Option<String>, env_shell: bool) -> (r: Option<
    AccountQuery,
>)
    ensures
        match mode {
            ShellMode::NoShell => r is None,
            ShellMode::LoginShell => match user {
                Some(u) => r == Some(AccountQuery::ByName(*u)),
                None => r == Some(AccountQuery::ByUid(ROOT_UID)),
            },
            ShellMode::InteractiveShell => if env_shell {
                r is None
            } else {
                r == Some(AccountQuery::Invoker)
            },
        },
{
    match mode {
        ShellMode::NoShell => None,
        ShellMode::LoginShell => match user {
            Some(u) => Some(AccountQuery::ByName(u.clone())),
            None => Some(AccountQuery::ByUid(ROOT_UID)),
        },
        ShellMode::InteractiveShell => if env_shell {
            None
        } else {
            Some(AccountQuery::Invoker)
        },
    }
}

/// The shell that a mode runs: for a login shell, the one of the target
/// user's record, run as a login shell; for an interactive shell, the one
/// the environment names, else the one of the invoking user's record.
pub open spec fn resolve_spec(
    mode: ShellMode,
    env_shell: Option<Seq<char>>,
    account_shell: Option<Seq<char>>,
) -> Option<(Seq<char>, bool)> {
    match mode {
        ShellMode::NoShell => None,
        ShellMode::LoginShell => match account_shell {
            Some(p) => Some((p, true)),
            None => None,
        },
        ShellMode::InteractiveShell => match env_shell {
            Some(p) => Some((p, false)),
            None => match account_shell {
                Some(p) => Some((p, false)),
                None => None,
            },
        },
    }
}

/// Picks the shell to run from the environment's shell and the shell of the
/// account record that `shell_lookup` asked for (`None` where the record
/// was not found or not looked up).
pub fn resolve_shell(mode: ShellMode, env_shell: Option<String>, account_shell: Option<String>) -> (r:
    Option<ResolvedShell>)
    ensures
        shell_view(r) == resolve_spec(mode, opt_view(env_shell), opt_view(account_shell)),
{
    match mode {
        ShellMode::NoShell => None,
        ShellMode::LoginShell => match account_shell {
            Some(p) => Some(ResolvedShell { path: p, login: true }),
            None => None,
        },
        ShellMode::InteractiveShell => match env_shell {
            Some(p) => Some(ResolvedShell { path: p, login: false }),
            None => match account_shell {
                Some(p) => Some(ResolvedShell { path: p, login: false }),
                None => None,
            },
        },
    }
}

} // verus!
