use vstd::prelude::*;
use crate::text::views;
use crate::types::Env;

verus! {

/// Builds the argument vectors of the `git` commands this library runs.
pub struct GitCommands {
    pub env: Env,
}

/// Options of one `git log` call.
pub struct GitLogOptions {
    pub max_count: Option<u32>,
}

/// The decimal digit `d` (below ten) as a character.
pub open spec fn digit_char(d: nat) -> char {
    seq!['0', '1', '2', '3', '4', '5', '6', '7', '8', '9'][d as int]
}

/// The decimal notation of `n`, without leading zeros.
pub open spec fn decimal(n: nat) -> Seq<char>
    decreases n,
{
    if n < 10 {
        seq![digit_char(n)]
    } else {
        decimal(n / 10).push(digit_char(n % 10))
    }
}

/// The arguments of `git branch`, the repository directory first where one is given.
pub open spec fn branch_argv(dir: Option<Seq<char>>) -> Seq<Seq<char>> {
    match dir {
        Some(d) => seq!["--git-dir="@ + d, "branch"@],
        None => seq!["branch"@],
    }
}

/// The template each commit is printed with: hash, tree, parents, author
/// name, mail and date, quoted relative author date, committer name, mail
/// and date, quoted relative committer date, and the subject in brackets.
pub open spec fn pretty_arg() -> Seq<char> {
    "--pretty=format:\"%H %T %P %an %ae %ad \"%ar\" %cn %ce %cd \"%cr\" [%s]\""@
}

/// The arguments of `git log` for `reference`, with a limit where one is given.
pub open spec fn log_argv(reference: Seq<char>, max_count: Option<u32>) -> Seq<Seq<char>> {
    seq![
        "log"@,
        "--date=iso-local"@,
        pretty_arg(),
        "--date=format:%Y-%m-%d_%H:%M:%S"@,
        reference,
    ] + match max_count {
        Some(n) => seq!["--max-count="@ + decimal(n as nat)],
        None => Seq::<Seq<char>>::empty(),
    }
}

pub open spec fn opt_view(o: Option<String>) -> Option<Seq<char>> {
    match o {
        Some(s) => Some(s@),
        None => None,
    }
}

fn digit_str(d: u32) -> (r: &'static str)
    requires
        d < 10,
    ensures
        r@ == seq![digit_char(d as nat)],
{
    proof {
        reveal_strlit("0");
        reveal_strlit("1");
        reveal_strlit("2");
        reveal_strlit("3");
        reveal_strlit("4");
        reveal_strlit("5");
        reveal_strlit("6");
        reveal_strlit("7");
        reveal_strlit("8");
        reveal_strlit("9");
    }
    let r = if d == 0 {
        "0"
    } else if d == 1 {
        "1"
    } else if d == 2 {
        "2"
    } else if d == 3 {
        "3"
    } else if d == 4 {
        "4"
    } else if d == 5 {
        "5"
    } else if d == 6 {
        "6"
    } else if d == 7 {
        "7"
    } else if d == 8 {
        "8"
    } else {
        "9"
    };
    assert(r@ =~= seq![digit_char(d as nat)]);
    r
}

/// The decimal notation of `n`.
pub fn decimal_string(n: u32) -> (r: String)
    ensures
        r@ == decimal(n as nat),
    decreases n,
{
    if n < 10 {
        digit_str(n).to_owned()
    } else {
        let mut s = decimal_string(n / 10);
        s.append(digit_str(n % 10));
        s
    }
}

impl GitCommands {
    pub fn new(env: Env) -> (r: GitCommands)
        ensures
            r.env == env,
    {
        GitCommands { env }
    }

    /// The arguments of `git branch`: `--git-dir=<dir>` first where the
    /// environment names a directory.
    pub fn git_branch_args(&self) -> (r: Vec<String>)
        ensures
            views(r@) == branch_argv(opt_view(self.env.dir)),
    {
        let mut args: Vec<String> = Vec::new();
        match &self.env.dir {
            Some(dir) => {
                let mut arg = "--git-dir=".to_owned();
                arg.append(dir.as_str());
                args.push(arg);
            },
            None => {},
        }
        args.push("branch".to_owned());
        assert(views(args@) =~= branch_argv(opt_view(self.env.dir)));
        args
    }

    /// The arguments of `git log` for `commit_hash` (a branch name or a
    /// hash): the date settings, the record template, the reference, and
    /// `--max-count=<n>` where the options give a limit.
    pub fn git_log_args(&self, commit_hash: &str, options: &GitLogOptions) -> (r: Vec<String>)
        ensures
            views(r@) == log_argv(commit_hash@, options.max_count),
    {
        let mut args: Vec<String> = Vec::new();
        args.push("log".to_owned());
        args.push("--date=iso-local".to_owned());
        args.push(
            "--pretty=format:\"%H %T %P %an %ae %ad \"%ar\" %cn %ce %cd \"%cr\" [%s]\"".to_owned(),
        );
        args.push("--date=format:%Y-%m-%d_%H:%M:%S".to_owned());
        args.push(commit_hash.to_owned());
        match options.max_count {
            Some(n) => {
                let mut arg = "--max-count=".to_owned();
                let digits = decimal_string(n);
                arg.append(digits.as_str());
                args.push(arg);
            },
            None => {},
        }
        assert(views(args@) =~= log_argv(commit_hash@, options.max_count));
        args
    }
}

} // verus!
