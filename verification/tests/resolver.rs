use git_credential_wsl::args::{Args, Cmd, Invocation};

fn bare(cmd: Cmd) -> Args {
    Args { cd: None, distribution: None, user: None, system: false, cmd }
}

fn owned(items: &[&str]) -> Vec<String> {
    items.iter().map(|s| s.to_string()).collect()
}

#[test]
fn no_option_gives_no_argument() {
    assert_eq!(bare(Cmd::Get).wsl_args(), Vec::<&str>::new());
    assert_eq!(bare(Cmd::Store).wsl_args(), Vec::<&str>::new());
    assert_eq!(bare(Cmd::Erase).wsl_args(), Vec::<&str>::new());
}

#[test]
fn each_option_alone() {
    let mut a = bare(Cmd::Get);
    a.cd = Some("/home/bob".to_string());
    assert_eq!(a.wsl_args(), vec!["--cd", "/home/bob"]);

    let mut a = bare(Cmd::Get);
    a.distribution = Some("Debian".to_string());
    assert_eq!(a.wsl_args(), vec!["--distribution", "Debian"]);

    let mut a = bare(Cmd::Get);
    a.user = Some("bob".to_string());
    assert_eq!(a.wsl_args(), vec!["--user", "bob"]);

    let mut a = bare(Cmd::Get);
    a.system = true;
    assert_eq!(a.wsl_args(), vec!["--system"]);
}

#[test]
fn all_options_in_fixed_order() {
    let a = Args {
        cd: Some("~".to_string()),
        distribution: Some("Debian".to_string()),
        user: Some("root".to_string()),
        system: true,
        cmd: Cmd::Erase,
    };
    assert_eq!(
        a.wsl_args(),
        vec!["--cd", "~", "--distribution", "Debian", "--user", "root", "--system"]
    );
}

#[test]
fn every_subset_of_options() {
    for bits in 0u8..16 {
        let cd = if bits & 1 != 0 { Some("/tmp".to_string()) } else { None };
        let distribution = if bits & 2 != 0 { Some("Alpine".to_string()) } else { None };
        let user = if bits & 4 != 0 { Some("carol".to_string()) } else { None };
        let system = bits & 8 != 0;
        let mut expected: Vec<&str> = Vec::new();
        if bits & 1 != 0 {
            expected.push("--cd");
            expected.push("/tmp");
        }
        if bits & 2 != 0 {
            expected.push("--distribution");
            expected.push("Alpine");
        }
        if bits & 4 != 0 {
            expected.push("--user");
            expected.push("carol");
        }
        if bits & 8 != 0 {
            expected.push("--system");
        }
        let a = Args { cd, distribution, user, system, cmd: Cmd::Get };
        assert_eq!(a.wsl_args(), expected);
        let n = 2 * (bits & 1) + (bits & 2) + (bits & 4) / 2 + (bits & 8) / 8;
        assert_eq!(a.wsl_args().len(), usize::from(n));
    }
}

#[test]
fn values_are_handed_on_as_they_are() {
    let a = Args {
        cd: Some("--system".to_string()),
        distribution: Some(String::new()),
        user: Some("j\u{fc}rgen m\u{fc}ller".to_string()),
        system: false,
        cmd: Cmd::Get,
    };
    assert_eq!(
        a.wsl_args(),
        vec!["--cd", "--system", "--distribution", "", "--user", "j\u{fc}rgen m\u{fc}ller"]
    );
}

#[test]
fn tokens_of_the_three_operations() {
    assert_eq!(Cmd::Get.credential_subcmd(), "fill");
    assert_eq!(Cmd::Store.credential_subcmd(), "approve");
    assert_eq!(Cmd::Erase.credential_subcmd(), "reject");
}

#[test]
fn options_do_not_depend_on_the_operation() {
    for cmd in [Cmd::Get, Cmd::Store, Cmd::Erase] {
        let mut a = bare(cmd);
        a.user = Some("dave".to_string());
        a.system = true;
        assert_eq!(a.wsl_args(), vec!["--user", "dave", "--system"]);
    }
}

#[test]
fn store_with_user_and_system() {
    let a = Args {
        cd: None,
        distribution: None,
        user: Some("alice".to_string()),
        system: true,
        cmd: Cmd::Store,
    };
    assert_eq!(a.wsl_args(), vec!["--user", "alice", "--system"]);
    let invocation = a.resolve();
    assert_eq!(invocation.arguments, owned(&["--user", "alice", "--system"]));
    assert_eq!(invocation.subcommand, Cmd::Store);
    assert_eq!(
        invocation.child_args(),
        vec!["--user", "alice", "--system", "-d", "Ubuntu", "--", "git", "credential", "approve"]
    );
}

#[test]
fn get_without_options_runs_the_helper_alone() {
    let invocation = bare(Cmd::Get).resolve();
    assert_eq!(invocation, Invocation { arguments: Vec::new(), subcommand: Cmd::Get });
    assert_eq!(invocation.child_args(), vec!["-d", "Ubuntu", "--", "git", "credential", "fill"]);
}

#[test]
fn erase_ends_with_reject() {
    let mut a = bare(Cmd::Erase);
    a.distribution = Some("Debian".to_string());
    let invocation = a.resolve();
    let args = invocation.child_args();
    assert_eq!(
        args,
        vec!["--distribution", "Debian", "-d", "Ubuntu", "--", "git", "credential", "reject"]
    );
    assert_eq!(args.len(), invocation.arguments.len() + 6);
    assert_eq!(args.last(), Some(&"reject"));
}

#[test]
fn child_args_keep_the_options_of_an_invocation() {
    let invocation = Invocation {
        arguments: owned(&["--cd", "a b", "--system"]),
        subcommand: Cmd::Get,
    };
    assert_eq!(
        invocation.child_args(),
        vec!["--cd", "a b", "--system", "-d", "Ubuntu", "--", "git", "credential", "fill"]
    );
}
