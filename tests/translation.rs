use sudo_compat::invocation::{build_invocation, translate, Failure};
use sudo_compat::quoting::{shell_escape, shell_escape_arg};
use sudo_compat::request::{validate, Environment, Rejection, ShellArgs, ShellMode, SudoArgs};
use sudo_compat::shell::{resolve_shell, shell_lookup, AccountQuery, ResolvedShell};
use sudo_compat::split::split_arguments;

fn base() -> SudoArgs {
    SudoArgs {
        askpass: false,
        bell: false,
        background: false,
        close_from: 3,
        preserve_all_env: false,
        preserve_env: Vec::new(),
        edit: false,
        group: None,
        set_home: false,
        host: None,
        remove_timestamp: false,
        reset_timestamp: false,
        list: false,
        no_update: false,
        non_interactive: false,
        preserve_groups: false,
        prompt: None,
        chroot: None,
        stdin: false,
        other_user: None,
        command_timeout: None,
        user: None,
        chdir: None,
        validate: false,
        shell: ShellArgs { login: false, shell: false },
    }
}

fn quiet_env() -> Environment {
    Environment { askpass: false, prompt: false, shell: None }
}

fn strings(v: &[&str]) -> Vec<String> {
    v.iter().map(|s| s.to_string()).collect()
}

fn trivial_command() -> Vec<String> {
    strings(&["true"])
}

fn single_rule_cases() -> Vec<(SudoArgs, Environment, Rejection)> {
    let mut cases = Vec::new();
    let mut a = base();
    a.askpass = true;
    cases.push((a, Environment { askpass: true, prompt: false, shell: None }, Rejection::Askpass));
    let mut a = base();
    a.close_from = 10;
    cases.push((a, quiet_env(), Rejection::CloseFrom(10)));
    let mut a = base();
    a.edit = true;
    cases.push((a, quiet_env(), Rejection::Edit));
    let mut a = base();
    a.list = true;
    cases.push((a, quiet_env(), Rejection::List));
    let mut a = base();
    a.other_user = Some("alice".to_string());
    cases.push((a, quiet_env(), Rejection::OtherUser));
    let mut a = base();
    a.no_update = true;
    cases.push((a, quiet_env(), Rejection::NoUpdate));
    let mut a = base();
    a.preserve_groups = true;
    cases.push((a, quiet_env(), Rejection::PreserveGroups));
    let mut a = base();
    a.stdin = true;
    cases.push((a, quiet_env(), Rejection::Stdin));
    let mut a = base();
    a.prompt = Some("pw: ".to_string());
    cases.push((a, quiet_env(), Rejection::Prompt));
    cases.push((base(), Environment { askpass: false, prompt: true, shell: None }, Rejection::Prompt));
    let mut a = base();
    a.validate = true;
    cases.push((a, quiet_env(), Rejection::Validate));
    let mut a = base();
    a.preserve_all_env = true;
    cases.push((a, quiet_env(), Rejection::PreserveAllEnv));
    let mut a = base();
    a.background = true;
    cases.push((a, quiet_env(), Rejection::Background));
    let mut a = base();
    a.remove_timestamp = true;
    cases.push((a, quiet_env(), Rejection::Timestamp));
    let mut a = base();
    a.reset_timestamp = true;
    cases.push((a, quiet_env(), Rejection::Timestamp));
    let mut a = base();
    a.chroot = Some("/srv".to_string());
    cases.push((a, quiet_env(), Rejection::Chroot));
    let mut a = base();
    a.command_timeout = Some("5".to_string());
    cases.push((a, quiet_env(), Rejection::CommandTimeout));
    cases
}

#[test]
fn each_refused_flag_alone_is_rejected_for_itself() {
    for (args, env, kind) in single_rule_cases() {
        assert_eq!(validate(&args, &env), Err(kind));
        assert_eq!(translate(&args, &trivial_command(), &env, None), Err(Failure::Rejected(kind)));
    }
}

#[test]
fn refusal_messages_are_distinct() {
    let kinds: Vec<Rejection> = single_rule_cases().into_iter().map(|c| c.2).collect();
    for a in &kinds {
        for b in &kinds {
            assert_eq!(a == b, a.message() == b.message());
        }
    }
}

#[test]
fn refusal_messages_text() {
    assert_eq!(Rejection::CloseFrom(10).message(), "close-from must be exactly 3 or unspecified, was 10");
    assert_eq!(Rejection::CloseFrom(0).message(), "close-from must be exactly 3 or unspecified, was 0");
    assert_eq!(
        Rejection::CloseFrom(u64::MAX).message(),
        "close-from must be exactly 3 or unspecified, was 18446744073709551615"
    );
    assert_eq!(Rejection::Edit.message(), "editing is not supported");
    assert_eq!(Rejection::Chroot.message(), "chroot is unimplemented");
    assert_eq!(Failure::MissingCommand.message(), "must specify --login, --shell, or a COMMAND");
    assert_eq!(Failure::ShellNotFound.message(), "failed to lookup the target user's shell");
    assert_eq!(Failure::Rejected(Rejection::Stdin).message(), Rejection::Stdin.message());
}

#[test]
fn preserve_all_env_message() {
    let mut a = base();
    a.preserve_all_env = true;
    let r = translate(&a, &trivial_command(), &quiet_env(), None);
    assert_eq!(r, Err(Failure::Rejected(Rejection::PreserveAllEnv)));
    assert_eq!(
        Failure::Rejected(Rejection::PreserveAllEnv).message(),
        "you may not preserve the entire environment, you cretin!"
    );
}

#[test]
fn unimplemented_is_told_apart_from_unsupported() {
    assert!(Rejection::Background.is_unimplemented());
    assert!(Rejection::Timestamp.is_unimplemented());
    assert!(Rejection::Chroot.is_unimplemented());
    assert!(Rejection::CommandTimeout.is_unimplemented());
    assert!(!Rejection::Askpass.is_unimplemented());
    assert!(!Rejection::CloseFrom(4).is_unimplemented());
    assert!(!Rejection::PreserveAllEnv.is_unimplemented());
}

#[test]
fn first_rule_wins() {
    let mut a = base();
    a.edit = true;
    a.background = true;
    a.close_from = 7;
    assert_eq!(validate(&a, &quiet_env()), Err(Rejection::CloseFrom(7)));
    a.close_from = 3;
    assert_eq!(validate(&a, &quiet_env()), Err(Rejection::Edit));
}

#[test]
fn askpass_without_environment_is_accepted() {
    let mut a = base();
    a.askpass = true;
    assert_eq!(validate(&a, &quiet_env()), Ok(()));
    let env = Environment { askpass: true, prompt: false, shell: None };
    assert_eq!(validate(&base(), &env), Ok(()));
}

#[test]
fn close_from_other_than_three_is_rejected() {
    let mut a = base();
    a.close_from = 10;
    let r = translate(&a, &strings(&["/bin/echo", "hi"]), &quiet_env(), None);
    assert_eq!(r, Err(Failure::Rejected(Rejection::CloseFrom(10))));
    a.close_from = 3;
    assert!(translate(&a, &strings(&["/bin/echo", "hi"]), &quiet_env(), None).is_ok());
}

#[test]
fn login_shell_of_target_user() {
    let mut a = base();
    a.user = Some("bob".to_string());
    a.shell = ShellArgs { login: true, shell: false };
    assert_eq!(
        shell_lookup(a.shell.mode(), &a.user, false),
        Some(AccountQuery::ByName("bob".to_string()))
    );
    let r = translate(&a, &Vec::new(), &quiet_env(), Some("/bin/zsh".to_string())).unwrap();
    assert_eq!(r, strings(&["--background=", "-u", "bob", "--", "/bin/zsh", "--login"]));
}

#[test]
fn login_shell_defaults_to_superuser() {
    let a = ShellArgs { login: true, shell: false };
    assert_eq!(shell_lookup(a.mode(), &None, true), Some(AccountQuery::ByUid(0)));
    let r = resolve_shell(ShellMode::LoginShell, Some("/bin/fish".to_string()), Some("/bin/bash".to_string()));
    assert_eq!(r, Some(ResolvedShell { path: "/bin/bash".to_string(), login: true }));
}

#[test]
fn login_shell_with_command() {
    let mut a = base();
    a.shell = ShellArgs { login: true, shell: false };
    let cmd = strings(&["echo", "a b", "it's"]);
    let r = translate(&a, &cmd, &quiet_env(), Some("/bin/sh".to_string())).unwrap();
    assert_eq!(
        r,
        strings(&["--background=", "--", "/bin/sh", "--login", "-c", "echo a\\ b it\\'s"])
    );
}

#[test]
fn interactive_shell_from_environment() {
    let mut a = base();
    a.shell = ShellArgs { login: false, shell: true };
    assert_eq!(shell_lookup(a.shell.mode(), &None, true), None);
    let env = Environment { askpass: false, prompt: false, shell: Some("/bin/fish".to_string()) };
    let r = translate(&a, &Vec::new(), &env, None).unwrap();
    assert_eq!(r.last().map(|s| s.as_str()), Some("/bin/fish"));
    assert!(!r.contains(&"-c".to_string()));
    assert!(!r.contains(&"--login".to_string()));
    assert_eq!(r, strings(&["--background=", "--", "/bin/fish"]));
}

#[test]
fn interactive_shell_from_account_record() {
    let mut a = base();
    a.shell = ShellArgs { login: false, shell: true };
    assert_eq!(shell_lookup(a.shell.mode(), &None, false), Some(AccountQuery::Invoker));
    let r = translate(&a, &Vec::new(), &quiet_env(), Some("/bin/bash".to_string())).unwrap();
    assert_eq!(r, strings(&["--background=", "--", "/bin/bash"]));
}

#[test]
fn shell_not_found() {
    let mut a = base();
    a.shell = ShellArgs { login: true, shell: false };
    assert_eq!(translate(&a, &Vec::new(), &quiet_env(), None), Err(Failure::ShellNotFound));
    a.shell = ShellArgs { login: false, shell: true };
    assert_eq!(translate(&a, &Vec::new(), &quiet_env(), None), Err(Failure::ShellNotFound));
}

#[test]
fn no_shell_command_is_appended_verbatim() {
    let a = base();
    assert!(a.shell.no_shell());
    assert_eq!(shell_lookup(a.shell.mode(), &None, false), None);
    let r = translate(&a, &strings(&["/bin/echo", "hi there"]), &quiet_env(), None).unwrap();
    assert_eq!(r, strings(&["--background=", "--", "/bin/echo", "hi there"]));
}

#[test]
fn missing_command() {
    assert_eq!(translate(&base(), &Vec::new(), &quiet_env(), None), Err(Failure::MissingCommand));
}

#[test]
fn preserved_variables_in_order() {
    let mut a = base();
    a.preserve_env = strings(&["PATH", "HOME"]);
    let r = translate(&a, &trivial_command(), &quiet_env(), None).unwrap();
    assert_eq!(r, strings(&["--background=", "--setenv=PATH", "--setenv=HOME", "--", "true"]));
}

#[test]
fn every_translated_option_in_order() {
    let mut a = base();
    a.chdir = Some("/tmp".to_string());
    a.preserve_env = strings(&["TERM"]);
    a.group = Some("wheel".to_string());
    a.user = Some("root".to_string());
    a.host = Some("box".to_string());
    a.non_interactive = true;
    a.bell = true;
    a.set_home = true;
    let r = build_invocation(&a, &None, &strings(&["ls", "-l"]));
    assert_eq!(
        r,
        strings(&[
            "--background=",
            "-D",
            "/tmp",
            "--setenv=TERM",
            "-g",
            "wheel",
            "-u",
            "root",
            "--machine=box",
            "--no-ask-password",
            "--",
            "ls",
            "-l",
        ])
    );
}

#[test]
fn escape_plain_argument_unchanged() {
    assert_eq!(shell_escape_arg("abc_XYZ-09$HOME"), "abc_XYZ-09$HOME");
    assert_eq!(shell_escape_arg(""), "");
}

#[test]
fn escape_special_characters() {
    assert_eq!(shell_escape_arg("hi there"), "hi\\ there");
    assert_eq!(shell_escape_arg("a'b\"c\\d"), "a\\'b\\\"c\\\\d");
    assert_eq!(shell_escape_arg("*;|&"), r"\*\;\|\&");
    assert_eq!(shell_escape_arg("é"), "\\é");
    assert_eq!(shell_escape_arg("a\nb"), "a'\n'b");
}

#[test]
fn escape_joins_with_spaces() {
    assert_eq!(shell_escape(&strings(&["/bin/echo", "hi there"])), "\\/bin\\/echo hi\\ there");
    assert_eq!(shell_escape(&strings(&["a"])), "a");
    assert_eq!(shell_escape(&Vec::new()), "");
}

/// Splits a string the way the shell reads backslash-escaped and
/// single-quoted words.
fn split_escaped(s: &str) -> Vec<String> {
    let mut words = Vec::new();
    let mut cur: Option<String> = None;
    let mut chars = s.chars();
    while let Some(c) = chars.next() {
        if c == '\'' {
            let word = cur.get_or_insert_with(String::new);
            for q in chars.by_ref() {
                if q == '\'' {
                    break;
                }
                word.push(q);
            }
        } else if c == '\\' {
            if let Some(n) = chars.next() {
                cur.get_or_insert_with(String::new).push(n);
            }
        } else if c == ' ' {
            if let Some(w) = cur.take() {
                words.push(w);
            }
        } else {
            cur.get_or_insert_with(String::new).push(c);
        }
    }
    if let Some(w) = cur {
        words.push(w);
    }
    words
}

#[test]
fn escape_round_trip_on_examples() {
    let args = strings(&["echo", "two  spaces", "tab\there", "$(rm -rf /)", "`x`", "a\\b", "'\"", ";&|<>", "\n", "line\nbreak"]);
    assert_eq!(split_escaped(&shell_escape(&args)), args);
}

fn byte_tokens(v: &[&str]) -> Vec<Vec<u8>> {
    v.iter().map(|s| s.as_bytes().to_vec()).collect()
}

#[test]
fn split_at_first_undashed_token() {
    assert_eq!(split_arguments(&byte_tokens(&["-u", "-i", "ls", "-l"])), (2, 2));
    assert_eq!(split_arguments(&byte_tokens(&["--user=bob", "--", "-x"])), (1, 2));
    assert_eq!(split_arguments(&byte_tokens(&["-n"])), (1, 1));
    assert_eq!(split_arguments(&byte_tokens(&[])), (0, 0));
    assert_eq!(split_arguments(&byte_tokens(&["", "-n"])), (0, 0));
    assert_eq!(split_arguments(&byte_tokens(&["--", "--"])), (0, 1));
    assert_eq!(split_arguments(&byte_tokens(&["---", "true"])), (1, 1));
}
