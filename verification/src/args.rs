//! From the caller's options to the arguments of the child process.

use vstd::prelude::*;

verus! {

/// The credential operation that the caller asks for.
#[derive(Clone, Copy, Debug, PartialEq, Eq)]
pub enum Cmd {
    /// Look a credential up.
    Get,
    /// Keep a credential that was used with success.
    Store,
    /// Forget a credential that was refused.
    Erase,
}

/// What the caller chose: the options handed on to `wsl.exe`, each of them
/// present or absent, and the operation.
#[derive(Clone, Debug)]
pub struct Args {
    /// Working directory inside the distribution.
    pub cd: Option<String>,
    /// The distribution to run in.
    pub distribution: Option<String>,
    /// The user to run as.
    pub user: Option<String>,
    /// Whether to run in the system distribution.
    pub system: bool,
    /// The operation.
    pub cmd: Cmd,
}

/// What to run downstream: the options for `wsl.exe`, in the order in
/// which they are handed on, and the operation.
#[derive(Clone, Debug, PartialEq, Eq)]
pub struct Invocation {
    /// The options, names and values.
    pub arguments: Vec<String>,
    /// The operation.
    pub subcommand: Cmd,
}

/// `--cd`
pub open spec fn flag_cd() -> Seq<char> {
    seq!['-', '-', 'c', 'd']
}

/// `--distribution`
pub open spec fn flag_distribution() -> Seq<char> {
    seq!['-', '-', 'd', 'i', 's', 't', 'r', 'i', 'b', 'u', 't', 'i', 'o', 'n']
}

/// `--user`
pub open spec fn flag_user() -> Seq<char> {
    seq!['-', '-', 'u', 's', 'e', 'r']
}

/// `--system`
pub open spec fn flag_system() -> Seq<char> {
    seq!['-', '-', 's', 'y', 's', 't', 'e', 'm']
}

/// The arguments that an option with a value contributes: its name and the
/// value when it is present, nothing when it is absent.
pub open spec fn valued(name: Seq<char>, value: Option<String>) -> Seq<Seq<char>> {
    match value {
        Some(v) => seq![name, v@],
        None => Seq::empty(),
    }
}

/// The arguments that a switch contributes: its name when it is set.
pub open spec fn switch(name: Seq<char>, on: bool) -> Seq<Seq<char>> {
    if on {
        seq![name]
    } else {
        Seq::empty()
    }
}

/// The arguments that select the distribution in which the helper runs and
/// end the options of `wsl.exe`: `-d Ubuntu --`.
pub open spec fn routing() -> Seq<Seq<char>> {
    seq![seq!['-', 'd'], seq!['U', 'b', 'u', 'n', 't', 'u'], seq!['-', '-']]
}

/// The helper and its leading argument: `git credential`.
pub open spec fn helper() -> Seq<Seq<char>> {
    seq![seq!['g', 'i', 't'], seq!['c', 'r', 'e', 'd', 'e', 'n', 't', 'i', 'a', 'l']]
}

impl Cmd {
    /// The verb of the credential protocol that stands for the operation.
    pub open spec fn token(self) -> Seq<char> {
        match self {
            Cmd::Get => seq!['f', 'i', 'l', 'l'],
            Cmd::Store => seq!['a', 'p', 'p', 'r', 'o', 'v', 'e'],
            Cmd::Erase => seq!['r', 'e', 'j', 'e', 'c', 't'],
        }
    }

    /// The subcommand of `git credential` for this operation.
    pub fn credential_subcmd(&self) -> (token: &'static str)
        ensures
            token@ == self.token(),
    {
        proof {
            reveal_strlit("fill");
            reveal_strlit("approve");
            reveal_strlit("reject");
        }
        match self {
            Cmd::Get => {
                assert("fill"@ =~= Cmd::Get.token());
                "fill"
            },
            Cmd::Store => {
                assert("approve"@ =~= Cmd::Store.token());
                "approve"
            },
            Cmd::Erase => {
                assert("reject"@ =~= Cmd::Erase.token());
                "reject"
            },
        }
    }
}

impl Args {
    /// The options for `wsl.exe`, in their fixed order: working directory,
    /// distribution, user, system switch.
    pub open spec fn spec_wsl_args(&self) -> Seq<Seq<char>> {
        valued(flag_cd(), self.cd) + valued(flag_distribution(), self.distribution) + valued(
            flag_user(),
            self.user,
        ) + switch(flag_system(), self.system)
    }

    /// The options handed on to `wsl.exe`: those that are present, in the
    /// fixed order, and nothing for those that are absent.
    pub fn wsl_args(&self) -> (args: Vec<&str>)
        ensures
            args.deep_view() == self.spec_wsl_args(),
    {
        proof {
            reveal_strlit("--cd");
            reveal_strlit("--distribution");
            reveal_strlit("--user");
            reveal_strlit("--system");
        }
        let mut args: Vec<&str> = Vec::new();
        if let Some(cd) = &self.cd {
            args.push("--cd");
            args.push(cd.as_str());
            assert("--cd"@ =~= flag_cd());
        }
        let ghost after_cd = args.deep_view();
        assert(after_cd =~= valued(flag_cd(), self.cd));
        if let Some(distribution) = &self.distribution {
            args.push("--distribution");
            args.push(distribution.as_str());
            assert("--distribution"@ =~= flag_distribution());
        }
        let ghost after_distribution = args.deep_view();
        assert(after_distribution =~= after_cd + valued(flag_distribution(), self.distribution));
        if let Some(user) = &self.user {
            args.push("--user");
            args.push(user.as_str());
            assert("--user"@ =~= flag_user());
        }
        let ghost after_user = args.deep_view();
        assert(after_user =~= after_distribution + valued(flag_user(), self.user));
        if self.system {
            args.push("--system");
            assert("--system"@ =~= flag_system());
        }
        assert(args.deep_view() =~= after_user + switch(flag_system(), self.system));
        args
    }

    /// The invocation that the caller's choice stands for: the options of
    /// `wsl_args` and the operation.
    pub fn resolve(&self) -> (invocation: Invocation)
        ensures
            invocation.arguments.deep_view() == self.spec_wsl_args(),
            invocation.subcommand == self.cmd,
    {
        let flags: Vec<&str> = self.wsl_args();
        let mut arguments: Vec<String> = Vec::new();
        let mut i: usize = 0;
        while i < flags.len()
            invariant
                i <= flags.len(),
                arguments.len() == i,
                forall|j: int| 0 <= j < i ==> arguments[j]@ == flags[j]@,
            decreases flags.len() - i,
        {
            arguments.push(flags[i].to_owned());
            i += 1;
        }
        assert(arguments.deep_view() =~= flags.deep_view());
        Invocation { arguments, subcommand: self.cmd }
    }
}

impl Invocation {
    /// The whole argument vector of the child: the options, the routing
    /// arguments, the helper, and the verb of the operation.
    pub open spec fn spec_child_args(&self) -> Seq<Seq<char>> {
        self.arguments.deep_view() + routing() + helper() + seq![self.subcommand.token()]
    }

    /// The arguments with which the child is started: the options, then
    /// `-d Ubuntu --`, then `git credential` and the verb of the operation.
    pub fn child_args(&self) -> (args: Vec<&str>)
        ensures
            args.deep_view() == self.spec_child_args(),
    {
        proof {
            reveal_strlit("-d");
            reveal_strlit("Ubuntu");
            reveal_strlit("--");
            reveal_strlit("git");
            reveal_strlit("credential");
        }
        let mut args: Vec<&str> = Vec::new();
        let mut i: usize = 0;
        while i < self.arguments.len()
            invariant
                i <= self.arguments.len(),
                args.len() == i,
                forall|j: int| 0 <= j < i ==> args[j]@ == self.arguments[j]@,
            decreases self.arguments.len() - i,
        {
            args.push(self.arguments[i].as_str());
            i += 1;
        }
        let ghost options = args.deep_view();
        assert(options =~= self.arguments.deep_view());
        args.push("-d");
        args.push("Ubuntu");
        args.push("--");
        assert("-d"@ =~= routing()[0]);
        assert("Ubuntu"@ =~= routing()[1]);
        assert("--"@ =~= routing()[2]);
        let ghost routed = args.deep_view();
        assert(routed =~= options + routing());
        args.push("git");
        args.push("credential");
        assert("git"@ =~= helper()[0]);
        assert("credential"@ =~= helper()[1]);
        let ghost named = args.deep_view();
        assert(named =~= routed + helper());
        args.push(self.subcommand.credential_subcmd());
        assert(args.deep_view() =~= named + seq![self.subcommand.token()]);
        args
    }
}

/// How many arguments an option with a value contributes.
pub open spec fn valued_len(value: Option<String>) -> int {
    if value.is_some() {
        2
    } else {
        0
    }
}

/// Every option that is present stands in the argument list at the place
/// that the options before it leave, followed by its value; an absent one
/// takes no place; and the list holds nothing else.
pub proof fn lemma_wsl_args_layout(a: Args)
    ensures
        a.spec_wsl_args().len() == valued_len(a.cd) + valued_len(a.distribution) + valued_len(
            a.user,
        ) + if a.system {
            1int
        } else {
            0int
        },
        a.cd matches Some(v) ==> a.spec_wsl_args()[0] == flag_cd() && a.spec_wsl_args()[1] == v@,
        a.distribution matches Some(v) ==> a.spec_wsl_args()[valued_len(a.cd)]
            == flag_distribution() && a.spec_wsl_args()[valued_len(a.cd) + 1] == v@,
        a.user matches Some(v) ==> a.spec_wsl_args()[valued_len(a.cd) + valued_len(a.distribution)]
            == flag_user() && a.spec_wsl_args()[valued_len(a.cd) + valued_len(a.distribution) + 1]
            == v@,
        a.system ==> a.spec_wsl_args()[valued_len(a.cd) + valued_len(a.distribution) + valued_len(
            a.user,
        )] == flag_system(),
{
}

/// With no option present the argument list is empty.
pub proof fn lemma_wsl_args_none(a: Args)
    requires
        a.cd.is_none(),
        a.distribution.is_none(),
        a.user.is_none(),
        !a.system,
    ensures
        a.spec_wsl_args() == Seq::<Seq<char>>::empty(),
{
    assert(a.spec_wsl_args() =~= Seq::<Seq<char>>::empty());
}

/// The options do not depend on the operation.
pub proof fn lemma_wsl_args_ignore_cmd(a: Args, b: Args)
    requires
        a.cd == b.cd,
        a.distribution == b.distribution,
        a.user == b.user,
        a.system == b.system,
    ensures
        a.spec_wsl_args() == b.spec_wsl_args(),
{
}

/// The child's arguments are the options, unchanged and in their order,
/// followed by six fixed arguments, of which the last is the verb of the
/// operation.
pub proof fn lemma_child_args_layout(invocation: Invocation)
    ensures
        invocation.spec_child_args().len() == invocation.arguments.len() + 6,
        invocation.spec_child_args().subrange(0, invocation.arguments.len() as int)
            == invocation.arguments.deep_view(),
        invocation.spec_child_args().subrange(
            invocation.arguments.len() as int,
            invocation.spec_child_args().len() as int,
        ) == routing() + helper() + seq![invocation.subcommand.token()],
        invocation.spec_child_args().last() == invocation.subcommand.token(),
{
    let n = invocation.arguments.len() as int;
    let all = invocation.spec_child_args();
    assert(invocation.arguments.deep_view().len() == n);
    assert(all.subrange(0, n) =~= invocation.arguments.deep_view());
    assert(all.subrange(n, all.len() as int) =~= routing() + helper()
        + seq![invocation.subcommand.token()]);
}

/// The three operations have three different verbs.
pub proof fn lemma_tokens_distinct(a: Cmd, b: Cmd)
    ensures
        a.token() == b.token() <==> a == b,
{
    assert(Cmd::Get.token()[0] == 'f');
    assert(Cmd::Store.token()[0] == 'a');
    assert(Cmd::Erase.token()[0] == 'r');
}

} // verus!
