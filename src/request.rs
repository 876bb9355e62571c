//! The parsed legacy command line and the rules that refuse parts of it.
use vstd::prelude::*;
use vstd::string::StringExecFns;

use crate::decimal::{decimal, lemma_decimal_injective, push_decimal};

verus! {

/// The two shell options, which exclude each other.
#[derive(Clone, Copy, Debug, PartialEq, Eq, Structural)]
pub struct ShellArgs {
    /// `-i`: run the target user's login shell.
    pub login: bool,
    /// `-s`: run the invoking user's shell.
    pub shell: bool,
}

/// Which shell, if any, the command runs in.
#[derive(Clone, Copy, Debug, PartialEq, Eq, Structural)]
pub enum ShellMode {
    NoShell,
    LoginShell,
    InteractiveShell,
}

impl ShellArgs {
    pub open spec fn mode_spec(&self) -> ShellMode {
        if self.login {
            ShellMode::LoginShell
        } else if self.shell {
            ShellMode::InteractiveShell
        } else {
            ShellMode::NoShell
        }
    }

    /// Neither shell option was given: the command runs as it stands.
    pub fn no_shell(&self) -> (r: bool)
        ensures
            r == (!self.login && !self.shell),
            r == (self.mode_spec() == ShellMode::NoShell),
    {
        !self.login && !self.shell
    }

    /// The shell mode that the options ask for.
    pub fn mode(&self) -> (r: ShellMode)
        ensures
            r == self.mode_spec(),
    {
        if self.login {
            ShellMode::LoginShell
        } else if self.shell {
            ShellMode::InteractiveShell
        } else {
            ShellMode::NoShell
        }
    }
}

/// The options of the legacy command line, one field for each.
#[derive(Clone, Debug)]
pub struct SudoArgs {
    pub askpass: bool,
    pub bell: bool,
    pub background: bool,
    /// Close file descriptors from this one on; 3 unless given.
    pub close_from: u64,
    pub preserve_all_env: bool,
    /// Names of the variables to hand on, in the order given.
    pub preserve_env: Vec<String>,
    pub edit: bool,
    pub group: Option<String>,
    pub set_home: bool,
    pub host: Option<String>,
    pub remove_timestamp: bool,
    pub reset_timestamp: bool,
    pub list: bool,
    pub no_update: bool,
    pub non_interactive: bool,
    pub preserve_groups: bool,
    pub prompt: Option<String>,
    pub chroot: Option<String>,
    pub stdin: bool,
    pub other_user: Option<String>,
    pub command_timeout: Option<String>,
    pub user: Option<String>,
    pub chdir: Option<String>,
    pub validate: bool,
    pub shell: ShellArgs,
}

/// The facts of the process environment that the translation reads.
#[derive(Clone, Debug)]
pub struct Environment {
    /// A password-prompt program is named in the environment.
    pub askpass: bool,
    /// A custom prompt is set in the environment.
    pub prompt: bool,
    /// The invoking user's shell, as the environment gives it.
    pub shell: Option<String>,
}

/// A part of the legacy command line that is refused.
#[derive(Clone, Copy, Debug, PartialEq, Eq, Structural)]
pub enum Rejection {
    Askpass,
    CloseFrom(u64),
    Edit,
    List,
    OtherUser,
    NoUpdate,
    PreserveGroups,
    Stdin,
    Prompt,
    Validate,
    PreserveAllEnv,
    Background,
    Timestamp,
    Chroot,
    CommandTimeout,
}

impl Rejection {
    /// The place of the rule in the order in which the rules are tried.
    pub open spec fn rank(self) -> nat {
        match self {
            Rejection::Askpass => 0,
            Rejection::CloseFrom(_) => 1,
            Rejection::Edit => 2,
            Rejection::List => 3,
            Rejection::OtherUser => 4,
            Rejection::NoUpdate => 5,
            Rejection::PreserveGroups => 6,
            Rejection::Stdin => 7,
            Rejection::Prompt => 8,
            Rejection::Validate => 9,
            Rejection::PreserveAllEnv => 10,
            Rejection::Background => 11,
            Rejection::Timestamp => 12,
            Rejection::Chroot => 13,
            Rejection::CommandTimeout => 14,
        }
    }

    /// The diagnostic that names the refused feature.
    pub open spec fn text(self) -> Seq<char> {
        match self {
            Rejection::Askpass => "custom askpass programs are unsupported"@,
            Rejection::CloseFrom(n) => "close-from must be exactly 3 or unspecified, was "@ + decimal(
                n as nat,
            ),
            Rejection::Edit => "editing is not supported"@,
            Rejection::List => "listing privileges is unsupported"@,
            Rejection::OtherUser => "listing privileges of other users is unsupported"@,
            Rejection::NoUpdate => "cached credentials are always updated"@,
            Rejection::PreserveGroups => "cannot preserve groups"@,
            Rejection::Stdin => "cannot use stdin/stderr for the password prompt"@,
            Rejection::Prompt => "password prompt cannot be overridden"@,
            Rejection::Validate => "cannot validate credentials"@,
            Rejection::PreserveAllEnv => "you may not preserve the entire environment, you cretin!"@,
            Rejection::Background => "cannot run commands in the background"@,
            Rejection::Timestamp => "cannot alter sudo timestamps"@,
            Rejection::Chroot => "chroot is unimplemented"@,
            Rejection::CommandTimeout => "command timeouts are unimplemented"@,
        }
    }

    /// The diagnostic that names the refused feature.
    pub fn message(&self) -> (r: String)
        ensures
            r@ == self.text(),
    {
        match self {
            Rejection::Askpass => String::from_str("custom askpass programs are unsupported"),
            Rejection::CloseFrom(n) => {
                let mut s = String::from_str("close-from must be exactly 3 or unspecified, was ");
                push_decimal(&mut s, *n);
                s
            },
            Rejection::Edit => String::from_str("editing is not supported"),
            Rejection::List => String::from_str("listing privileges is unsupported"),
            Rejection::OtherUser => String::from_str(
                "listing privileges of other users is unsupported",
            ),
            Rejection::NoUpdate => String::from_str("cached credentials are always updated"),
            Rejection::PreserveGroups => String::from_str("cannot preserve groups"),
            Rejection::Stdin => String::from_str("cannot use stdin/stderr for the password prompt"),
            Rejection::Prompt => String::from_str("password prompt cannot be overridden"),
            Rejection::Validate => String::from_str("cannot validate credentials"),
            Rejection::PreserveAllEnv => String::from_str(
                "you may not preserve the entire environment, you cretin!",
            ),
            Rejection::Background => String::from_str("cannot run commands in the background"),
            Rejection::Timestamp => String::from_str("cannot alter sudo timestamps"),
            Rejection::Chroot => String::from_str("chroot is unimplemented"),
            Rejection::CommandTimeout => String::from_str("command timeouts are unimplemented"),
        }
    }

    /// The feature may come one day, where the others never will.
    pub open spec fn is_unimplemented_spec(self) -> bool {
        self.rank() >= 11
    }

    /// Whether the refused feature is one that may be supported one day.
    pub fn is_unimplemented(&self) -> (r: bool)
        ensures
            r == self.is_unimplemented_spec(),
    {
        match self {
            Rejection::Background | Rejection::Timestamp | Rejection::Chroot
            | Rejection::CommandTimeout => true,
            _ => false,
        }
    }
}

/// The request breaks the rule behind `k`.
pub open spec fn violates(args: SudoArgs, env: Environment, k: Rejection) -> bool {
    match k {
        Rejection::Askpass => args.askpass && env.askpass,
        Rejection::CloseFrom(n) => args.close_from == n && n != 3,
        Rejection::Edit => args.edit,
        Rejection::List => args.list,
        Rejection::OtherUser => args.other_user is Some,
        Rejection::NoUpdate => args.no_update,
        Rejection::PreserveGroups => args.preserve_groups,
        Rejection::Stdin => args.stdin,
        Rejection::Prompt => args.prompt is Some || env.prompt,
        Rejection::Validate => args.validate,
        Rejection::PreserveAllEnv => args.preserve_all_env,
        Rejection::Background => args.background,
        Rejection::Timestamp => args.remove_timestamp || args.reset_timestamp,
        Rejection::Chroot => args.chroot is Some,
        Rejection::CommandTimeout => args.command_timeout is Some,
    }
}

/// The request breaks no rule.
pub open spec fn accepted(args: SudoArgs, env: Environment) -> bool {
    forall|k: Rejection| !violates(args, env, k)
}

/// `k` is the first rule, in the order of the rules, that the request breaks.
pub open spec fn first_violation(args: SudoArgs, env: Environment, k: Rejection) -> bool {
    &&& violates(args, env, k)
    &&& forall|j: Rejection| j.rank() < k.rank() ==> !violates(args, env, j)
}

/// Tries the rules in their order and stops at the first one that the
/// request breaks.
pub fn validate(args: &SudoArgs, env: &Environment) -> (r: Result<(), Rejection>)
    ensures
        match r {
            Ok(()) => accepted(*args, *env),
            Err(k) => first_violation(*args, *env, k),
        },
{
    if args.askpass && env.askpass {
        return Err(Rejection::Askpass);
    }
    if args.close_from != 3 {
        return Err(Rejection::CloseFrom(args.close_from));
    }
    if args.edit {
        return Err(Rejection::Edit);
    }
    if args.list {
        return Err(Rejection::List);
    }
    if args.other_user.is_some() {
        return Err(Rejection::OtherUser);
    }
    if args.no_update {
        return Err(Rejection::NoUpdate);
    }
    if args.preserve_groups {
        return Err(Rejection::PreserveGroups);
    }
    if args.stdin {
        return Err(Rejection::Stdin);
    }
    if args.prompt.is_some() || env.prompt {
        return Err(Rejection::Prompt);
    }
    if args.validate {
        return Err(Rejection::Validate);
    }
    if args.preserve_all_env {
        return Err(Rejection::PreserveAllEnv);
    }
    if args.background {
        return Err(Rejection::Background);
    }
    if args.remove_timestamp || args.reset_timestamp {
        return Err(Rejection::Timestamp);
    }
    if args.chroot.is_some() {
        return Err(Rejection::Chroot);
    }
    if args.command_timeout.is_some() {
        return Err(Rejection::CommandTimeout);
    }
    Ok(())
}

/// A request that breaks one rule alone is refused for that rule, and for
/// no other: nothing else can come first.
pub proof fn lemma_single_rule_rejected(args: SudoArgs, env: Environment, k: Rejection)
    requires
        violates(args, env, k),
        forall|j: Rejection| violates(args, env, j) ==> j == k,
    ensures
        !accepted(args, env),
        forall|j: Rejection| first_violation(args, env, j) <==> j == k,
{
}

/// A close-from value other than 3 always gets the request refused, for
/// that value unless a password-prompt program came first.
pub proof fn lemma_close_from_rejected(args: SudoArgs, env: Environment)
    requires
        args.close_from != 3,
    ensures
        !accepted(args, env),
        forall|k: Rejection|
            first_violation(args, env, k) ==> k == Rejection::Askpass || k
                == Rejection::CloseFrom(args.close_from),
{
    assert(violates(args, env, Rejection::CloseFrom(args.close_from)));
}

/// The length of each diagnostic.
spec fn text_len(k: Rejection) -> nat {
    match k {
        Rejection::Askpass => 39,
        Rejection::CloseFrom(n) => 49 + decimal(n as nat).len(),
        Rejection::Edit => 24,
        Rejection::List => 33,
        Rejection::OtherUser => 48,
        Rejection::NoUpdate => 37,
        Rejection::PreserveGroups => 22,
        Rejection::Stdin => 47,
        Rejection::Prompt => 36,
        Rejection::Validate => 27,
        Rejection::PreserveAllEnv => 56,
        Rejection::Background => 37,
        Rejection::Timestamp => 28,
        Rejection::Chroot => 23,
        Rejection::CommandTimeout => 34,
    }
}

/// The third character of each diagnostic, which tells apart those of
/// equal length.
spec fn text_third(k: Rejection) -> char {
    match k {
        Rejection::Askpass => 's',
        Rejection::CloseFrom(_) => 'o',
        Rejection::Edit => 'i',
        Rejection::List => 's',
        Rejection::OtherUser => 's',
        Rejection::NoUpdate => 'c',
        Rejection::PreserveGroups => 'n',
        Rejection::Stdin => 'n',
        Rejection::Prompt => 's',
        Rejection::Validate => 'n',
        Rejection::PreserveAllEnv => 'u',
        Rejection::Background => 'n',
        Rejection::Timestamp => 'n',
        Rejection::Chroot => 'r',
        Rejection::CommandTimeout => 'm',
    }
}

proof fn lemma_text_shape(k: Rejection)
    ensures
        k.text().len() == text_len(k),
        k.text()[2] == text_third(k),
        k is CloseFrom ==> text_len(k) >= 50,
{
    match k {
        Rejection::Askpass => {
            reveal_strlit("custom askpass programs are unsupported");
        },
        Rejection::CloseFrom(n) => {
            reveal_strlit("close-from must be exactly 3 or unspecified, was ");
            lemma_decimal_injective(n as nat, n as nat);
        },
        Rejection::Edit => {
            reveal_strlit("editing is not supported");
        },
        Rejection::List => {
            reveal_strlit("listing privileges is unsupported");
        },
        Rejection::OtherUser => {
            reveal_strlit("listing privileges of other users is unsupported");
        },
        Rejection::NoUpdate => {
            reveal_strlit("cached credentials are always updated");
        },
        Rejection::PreserveGroups => {
            reveal_strlit("cannot preserve groups");
        },
        Rejection::Stdin => {
            reveal_strlit("cannot use stdin/stderr for the password prompt");
        },
        Rejection::Prompt => {
            reveal_strlit("password prompt cannot be overridden");
        },
        Rejection::Validate => {
            reveal_strlit("cannot validate credentials");
        },
        Rejection::PreserveAllEnv => {
            reveal_strlit("you may not preserve the entire environment, you cretin!");
        },
        Rejection::Background => {
            reveal_strlit("cannot run commands in the background");
        },
        Rejection::Timestamp => {
            reveal_strlit("cannot alter sudo timestamps");
        },
        Rejection::Chroot => {
            reveal_strlit("chroot is unimplemented");
        },
        Rejection::CommandTimeout => {
            reveal_strlit("command timeouts are unimplemented");
        },
    }
}

/// Different causes of refusal have different diagnostics.
pub proof fn lemma_texts_distinct(a: Rejection, b: Rejection)
    requires
        a != b,
    ensures
        a.text() != b.text(),
{
    lemma_text_shape(a);
    lemma_text_shape(b);
    if let (Rejection::CloseFrom(n), Rejection::CloseFrom(m)) = (a, b) {
        lemma_decimal_injective(n as nat, m as nat);
        if a.text() == b.text() {
            reveal_strlit("close-from must be exactly 3 or unspecified, was ");
            assert(a.text().subrange(49, a.text().len() as int) == decimal(n as nat));
            assert(b.text().subrange(49, b.text().len() as int) == decimal(m as nat));
        }
    }
}

} // verus!
