//! The argument vector of the underlying privilege-elevation command.
use vstd::prelude::*;
use vstd::string::StringExecFns;

use crate::quoting::{escape_words, shell_escape, string_views};
use crate::request::{accepted, first_violation, validate, Environment, Rejection, ShellMode, SudoArgs};
use crate::shell::{opt_view, resolve_shell, resolve_spec, shell_view, ResolvedShell};

verus! {

/// Why no invocation was built.
#[derive(Clone, Copy, Debug, PartialEq, Eq, Structural)]
pub enum Failure {
    /// The request asks for a feature that is refused.
    Rejected(Rejection),
    /// Neither a shell mode nor a command was given.
    MissingCommand,
    /// The shell to run could not be found.
    ShellNotFound,
}

impl Failure {
    /// The one-line diagnostic of the failure.
    pub open spec fn text(self) -> Seq<char> {
        match self {
            Failure::Rejected(k) => k.text(),
            Failure::MissingCommand => "must specify --login, --shell, or a COMMAND"@,
            Failure::ShellNotFound => "failed to lookup the target user's shell"@,
        }
    }

    /// The one-line diagnostic of the failure.
    pub fn message(&self) -> (r: String)
        ensures
            r@ == self.text(),
    {
        match self {
            Failure::Rejected(k) => k.message(),
            Failure::MissingCommand => String::from_str(
                "must specify --login, --shell, or a COMMAND",
            ),
            Failure::ShellNotFound => String::from_str("failed to lookup the target user's shell"),
        }
    }
}

/// A flag and its value as two tokens, where a value is given.
pub open spec fn flag_pair(flag: Seq<char>, value: Option<Seq<char>>) -> Seq<Seq<char>> {
    match value {
        Some(v) => seq![flag, v],
        None => seq![],
    }
}

/// A flag with its value after `=` as one token, where a value is given.
pub open spec fn flag_joined(flag: Seq<char>, value: Option<Seq<char>>) -> Seq<Seq<char>> {
    match value {
        Some(v) => seq![flag + v],
        None => seq![],
    }
}

/// One `--setenv=NAME` token for each name, in order.
pub open spec fn setenv_tokens(names: Seq<Seq<char>>) -> Seq<Seq<char>> {
    names.map_values(|n: Seq<char>| "--setenv="@ + n)
}

/// What follows the separator: the command as it stands without a shell;
/// with one, the shell, `--login` for a login shell, and `-c` with the
/// escaped command where a command is given.
pub open spec fn command_tail(shell: Option<(Seq<char>, bool)>, command: Seq<Seq<char>>) -> Seq<
    Seq<char>,
> {
    match shell {
        None => command,
        Some((path, login)) => seq![path] + (if login {
            seq!["--login"@]
        } else {
            seq![]
        }) + (if command.len() > 0 {
            seq!["-c"@, escape_words(command)]
        } else {
            seq![]
        }),
    }
}

/// The options that come before the separator.
pub open spec fn option_tokens(args: SudoArgs) -> Seq<Seq<char>> {
    seq!["--background="@] + flag_pair("-D"@, opt_view(args.chdir)) + setenv_tokens(
        string_views(args.preserve_env@),
    ) + flag_pair("-g"@, opt_view(args.group)) + flag_pair("-u"@, opt_view(args.user))
        + flag_joined("--machine="@, opt_view(args.host)) + (if args.non_interactive {
        seq!["--no-ask-password"@]
    } else {
        seq![]
    })
}

/// The whole argument vector.
pub open spec fn invocation(
    args: SudoArgs,
    shell: Option<(Seq<char>, bool)>,
    command: Seq<Seq<char>>,
) -> Seq<Seq<char>> {
    option_tokens(args) + seq!["--"@] + command_tail(shell, command)
}

/// What the translation gives for a request that breaks no rule.
pub open spec fn translate_accepted(
    args: SudoArgs,
    command: Seq<Seq<char>>,
    env: Environment,
    account_shell: Option<Seq<char>>,
) -> Result<Seq<Seq<char>>, Failure> {
    let mode = args.shell.mode_spec();
    let shell = resolve_spec(mode, opt_view(env.shell), account_shell);
    if mode == ShellMode::NoShell {
        if command.len() == 0 {
            Err(Failure::MissingCommand)
        } else {
            Ok(invocation(args, None, command))
        }
    } else {
        match shell {
            None => Err(Failure::ShellNotFound),
            Some(s) => Ok(invocation(args, Some(s), command)),
        }
    }
}

/// The contents of a translation's result.
pub open spec fn result_view(r: Result<Vec<String>, Failure>) -> Result<Seq<Seq<char>>, Failure> {
    match r {
        Ok(v) => Ok(string_views(v@)),
        Err(e) => Err(e),
    }
}

proof fn lemma_views_push(v: Seq<String>, s: String)
    ensures
        string_views(v.push(s)) == string_views(v).push(s@),
{
    assert(string_views(v.push(s)) =~= string_views(v).push(s@));
}

proof fn lemma_views_concat(a: Seq<String>, b: Seq<String>)
    ensures
        string_views(a + b) == string_views(a) + string_views(b),
{
    assert(string_views(a + b) =~= string_views(a) + string_views(b));
}

fn push_str(out: &mut Vec<String>, s: &str)
    ensures
        string_views(final(out)@) == string_views(old(out)@).push(s@),
{
    let t = String::from_str(s);
    proof {
        lemma_views_push(out@, t);
    }
    out.push(t);
}

fn push_string(out: &mut Vec<String>, s: String)
    ensures
        string_views(final(out)@) == string_views(old(out)@).push(s@),
{
    proof {
        lemma_views_push(out@, s);
    }
    out.push(s);
}

fn push_flag_pair(out: &mut Vec<String>, flag: &str, value: &Option<String>)
    ensures
        string_views(final(out)@) == string_views(old(out)@) + flag_pair(flag@, opt_view(*value)),
{
    match value {
        Some(v) => {
            push_str(out, flag);
            push_string(out, v.clone());
            assert(string_views(old(out)@).push(flag@).push(v@) == string_views(old(out)@)
                + seq![flag@, v@]);
        },
        None => {
            assert(string_views(old(out)@) + seq![] == string_views(old(out)@));
        },
    }
}

fn push_flag_joined(out: &mut Vec<String>, flag: &str, value: &Option<String>)
    ensures
        string_views(final(out)@) == string_views(old(out)@) + flag_joined(flag@, opt_view(*value)),
{
    match value {
        Some(v) => {
            let t = String::from_str(flag).concat(v.as_str());
            push_string(out, t);
            assert(string_views(old(out)@).push(flag@ + v@) == string_views(old(out)@) + seq![
                flag@ + v@,
            ]);
        },
        None => {
            assert(string_views(old(out)@) + seq![] == string_views(old(out)@));
        },
    }
}

fn push_setenv(out: &mut Vec<String>, names: &Vec<String>)
    ensures
        string_views(final(out)@) == string_views(old(out)@) + setenv_tokens(
            string_views(names@),
        ),
{
    let ghost start = string_views(out@);
    let ghost all = setenv_tokens(string_views(names@));
    let mut i: usize = 0;
    while i < names.len()
        invariant
            i <= names.len(),
            all == setenv_tokens(string_views(names@)),
            string_views(out@) == start + all.subrange(0, i as int),
        decreases names.len() - i,
    {
        let t = String::from_str("--setenv=").concat(names[i].as_str());
        push_string(out, t);
        assert(all.subrange(0, i + 1) == all.subrange(0, i as int).push(all[i as int]));
        assert(start + all.subrange(0, i + 1) == (start + all.subrange(0, i as int)).push(
            all[i as int],
        ));
        i = i + 1;
    }
    assert(all.subrange(0, names.len() as int) == all);
}

/// Builds the argument vector of the underlying command from the options,
/// the shell to run (none for a command run as it stands) and the command.
pub fn build_invocation(args: &SudoArgs, shell: &Option<ResolvedShell>, command: &Vec<String>) -> (r:
    Vec<String>)
    ensures
        string_views(r@) == invocation(*args, shell_view(*shell), string_views(command@)),
{
    let mut out: Vec<String> = Vec::new();
    push_str(&mut out, "--background=");
    assert(string_views(out@) == seq!["--background="@]);
    push_flag_pair(&mut out, "-D", &args.chdir);
    push_setenv(&mut out, &args.preserve_env);
    push_flag_pair(&mut out, "-g", &args.group);
    push_flag_pair(&mut out, "-u", &args.user);
    push_flag_joined(&mut out, "--machine=", &args.host);
    if args.non_interactive {
        push_str(&mut out, "--no-ask-password");
    }
    assert(string_views(out@) == option_tokens(*args));
    push_str(&mut out, "--");
    let ghost before_tail = string_views(out@);
    match shell {
        None => {
            let mut rest = command.clone();
            proof {
                lemma_views_concat(out@, rest@);
            }
            out.append(&mut rest);
        },
        Some(s) => {
            push_string(&mut out, s.path.clone());
            if s.login {
                push_str(&mut out, "--login");
            }
            if command.len() > 0 {
                push_str(&mut out, "-c");
                push_string(&mut out, shell_escape(command));
            }
        },
    }
    assert(string_views(out@) == before_tail + command_tail(
        shell_view(*shell),
        string_views(command@),
    ));
    out
}

/// Translates a parsed command line: refuses it at the first rule that it
/// breaks, else builds the invocation, running the command as it stands or
/// in the shell that the mode resolves to. `account_shell` is the shell of
/// the account record that `shell_lookup` asked for, if one was found.
pub fn translate(
    args: &SudoArgs,
    command: &Vec<String>,
    env: &Environment,
    account_shell: Option<String>,
) -> (r: Result<Vec<String>, Failure>)
    ensures
        match r {
            Err(Failure::Rejected(k)) => first_violation(*args, *env, k),
            _ => accepted(*args, *env) && result_view(r) == translate_accepted(
                *args,
                string_views(command@),
                *env,
                opt_view(account_shell),
            ),
        },
{
    match validate(args, env) {
        Err(k) => {
            return Err(Failure::Rejected(k));
        },
        Ok(()) => {},
    }
    if args.shell.no_shell() {
        if command.len() == 0 {
            return Err(Failure::MissingCommand);
        }
        Ok(build_invocation(args, &None, command))
    } else {
        let shell = resolve_shell(args.shell.mode(), env.shell.clone(), account_shell);
        match shell {
            None => Err(Failure::ShellNotFound),
            Some(_) => Ok(build_invocation(args, &shell, command)),
        }
    }
}

} // verus!
