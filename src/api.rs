use vstd::prelude::*;
use crate::converters::{branch_names, log_records, patterns_compile, records_view, Converters};
use crate::git_commands::{branch_argv, log_argv, opt_view, GitCommands, GitLogOptions};
use crate::text::{split_lines, views};
use crate::types::{Env, Error, ErrorDetail};

verus! {

/// The identifier of a commit: forty characters.
pub struct CommitHash {
    pub hash: String,
}

/// The error of a hash that is not forty characters long.
pub open spec fn is_invalid_hash_error(e: Error) -> bool {
    match e {
        Error::InvalidValueError(d) => d.summary@ == "invalid hash"@ && d.detail@
            == "hash length is not 40 characters"@,
        Error::Wrapped(_) => false,
    }
}

impl CommitHash {
    /// Accepts `hash` exactly when it is forty characters long.
    pub fn new(hash: String) -> (r: Result<CommitHash, Error>)
        ensures
            r is Ok <==> hash@.len() == 40,
            r matches Ok(h) ==> h.hash == hash,
            r matches Err(e) ==> is_invalid_hash_error(e),
    {
        if hash.as_str().unicode_len() != 40 {
            return Err(
                Error::InvalidValueError(
                    ErrorDetail::new("invalid hash", "hash length is not 40 characters"),
                ),
            );
        }
        Ok(CommitHash { hash })
    }
}

/// A branch and the commit at its tip.
pub struct Branch {
    pub name: String,
    pub head_hash: CommitHash,
}

impl Branch {
    /// A branch named `name` at `head_hash`, which must be a valid hash.
    pub fn new(name: String, head_hash: String) -> (r: Result<Branch, Error>)
        ensures
            r is Ok <==> head_hash@.len() == 40,
            r matches Ok(b) ==> b.name == name && b.head_hash.hash == head_hash,
            r matches Err(e) ==> is_invalid_hash_error(e),
    {
        let head_hash = CommitHash::new(head_hash)?;
        Ok(Branch { name, head_hash })
    }
}

/// What is known of one commit.
pub struct CommitInfo {
    pub commit_hash: CommitHash,
    pub parent_hash: CommitHash,
    pub author: String,
    pub committer: String,
    pub author_email: String,
    pub committer_email: String,
}

/// Answers questions about a repository by running `git` and reading what
/// it prints. The caller runs each command whose arguments it is handed.
pub struct GitApi {
    commands: GitCommands,
    converter: Converters,
}

impl GitApi {
    pub fn new(env: Env) -> (r: GitApi)
        ensures
            r.env() == env,
    {
        GitApi { commands: GitCommands::new(env), converter: Converters::new() }
    }

    pub closed spec fn env(&self) -> Env {
        self.commands.env
    }

    /// The arguments of the command that lists the branches.
    pub fn branch_list_args(&self) -> (r: Vec<String>)
        ensures
            views(r@) == branch_argv(opt_view(self.env().dir)),
    {
        self.commands.git_branch_args()
    }

    /// Starts listing the branches from what `git branch` printed.
    pub fn scan_branches(&self, branch_output: String) -> (r: BranchScan)
        ensures
            views(r.names()) == branch_names(split_lines(branch_output@)),
            r.pos() == 0,
            r.found().len() == 0,
    {
        let names = self.converter.git_branch(branch_output).unwrap();
        BranchScan { names, pos: 0, found: Vec::new() }
    }

    /// The arguments of `git log` that lists the ancestors of `hash`.
    pub fn log_args(&self, hash: &CommitHash, options: &GitLogOptions) -> (r: Vec<String>)
        ensures
            views(r@) == log_argv(hash.hash@, options.max_count),
    {
        self.commands.git_log_args(hash.hash.as_str(), options)
    }

    /// The commits that `git log` printed, newest first, as hashes. This
    /// reading of the log is provisional.
    pub fn logs_from_output(&self, log_output: String) -> (r: Result<Vec<CommitHash>, Error>)
        ensures
            r is Ok <==> patterns_compile() && heads_valid(log_records(split_lines(log_output@))),
            r matches Ok(hs) ==> hashes_view(hs@) == first_fields(
                log_records(split_lines(log_output@)),
            ),
            r matches Err(e) ==> (patterns_compile() ==> is_invalid_hash_error(e)),
            r matches Err(e) ==> is_invalid_hash_error(e) || e is Wrapped,
    {
        let records = self.converter.git_log(log_output)?;
        hashes_of(&records)
    }

    /// The commit that `git log` printed first, or `None` where it printed
    /// no record. This reading of the log is provisional.
    pub fn commit_info_from_output(&self, log_output: String) -> (r: Result<
        Option<CommitInfo>,
        Error,
    >)
        ensures
            r is Ok <==> patterns_compile() && (log_records(split_lines(log_output@)).len() == 0
                || (log_records(split_lines(log_output@))[0][0].len() == 40 && log_records(
                split_lines(log_output@),
            )[0][2].len() == 40)),
            r matches Err(e) ==> (patterns_compile() ==> is_invalid_hash_error(e)),
            r matches Ok(None) ==> log_records(split_lines(log_output@)).len() == 0,
            r matches Ok(Some(c)) ==> log_records(split_lines(log_output@)).len() > 0
                && commit_info_matches(c, log_records(split_lines(log_output@))[0]),
            r matches Err(e) ==> e is Wrapped || (is_invalid_hash_error(e) && log_records(
                split_lines(log_output@),
            ).len() > 0 && !(log_records(split_lines(log_output@))[0][0].len() == 40
                && log_records(split_lines(log_output@))[0][2].len() == 40)),
    {
        let records = self.converter.git_log(log_output)?;
        if records.len() == 0 {
            return Ok(None);
        }
        assert(records_view(records@)[0] == views(records@[0]@));
        let info = commit_info_of(&records[0])?;
        Ok(Some(info))
    }

    /// The arguments of `git log` that asks for the tip of `name`.
    pub fn head_log_args(&self, name: &str) -> (r: Vec<String>)
        ensures
            views(r@) == log_argv(name@, Some(1u32)),
    {
        let options = GitLogOptions { max_count: Some(1) };
        self.commands.git_log_args(name, &options)
    }
}

/// The first field of each record.
pub open spec fn first_fields(recs: Seq<Seq<Seq<char>>>) -> Seq<Seq<char>> {
    recs.map_values(|rec: Seq<Seq<char>>| rec[0])
}

pub open spec fn hashes_view(v: Seq<CommitHash>) -> Seq<Seq<char>> {
    v.map_values(|h: CommitHash| h.hash@)
}

/// The commit hashes in the first field of each record; fails on the first
/// record whose first field is not a valid hash.
pub fn hashes_of(records: &Vec<Vec<String>>) -> (r: Result<Vec<CommitHash>, Error>)
    requires
        forall|i: int| 0 <= i < records@.len() ==> (#[trigger] records@[i])@.len() >= 1,
    ensures
        r is Ok <==> heads_valid(records_view(records@)),
        r matches Ok(hs) ==> hashes_view(hs@) == first_fields(records_view(records@)),
        r matches Err(e) ==> is_invalid_hash_error(e),
{
    let ghost rv = records_view(records@);
    let mut out: Vec<CommitHash> = Vec::new();
    let mut i: usize = 0;
    while i < records.len()
        invariant
            i <= records@.len(),
            rv == records_view(records@),
            forall|k: int| 0 <= k < records@.len() ==> (#[trigger] records@[k])@.len() >= 1,
            forall|k: int| 0 <= k < i ==> (#[trigger] rv[k])[0].len() == 40,
            hashes_view(out@) =~= first_fields(rv.subrange(0, i as int)),
        decreases records@.len() - i,
    {
        let rec = &records[i];
        assert(rv[i as int] == views(rec@));
        match CommitHash::new(rec[0].clone()) {
            Ok(h) => {
                let ghost before = out@;
                out.push(h);
                assert(hashes_view(out@) =~= hashes_view(before).push(rv[i as int][0]));
                assert(first_fields(rv.subrange(0, i + 1)) =~= first_fields(
                    rv.subrange(0, i as int),
                ).push(rv[i as int][0]));
            },
            Err(e) => {
                return Err(e);
            },
        }
        i = i + 1;
    }
    assert(rv.subrange(0, records@.len() as int) =~= rv);
    Ok(out)
}

/// The commit that one record describes: its hash, its parents' field as
/// the parent hash, and the author's and committer's names and mails.
pub open spec fn commit_info_matches(c: CommitInfo, rec: Seq<Seq<char>>) -> bool {
    &&& c.commit_hash.hash@ == rec[0]
    &&& c.parent_hash.hash@ == rec[2]
    &&& c.author@ == rec[3]
    &&& c.author_email@ == rec[4]
    &&& c.committer@ == rec[7]
    &&& c.committer_email@ == rec[8]
}

/// The commit that a record of twelve fields describes; fails where its
/// hash or its parents' field is not a single valid hash (a root commit has
/// no parent, a merge has several).
pub fn commit_info_of(rec: &Vec<String>) -> (r: Result<CommitInfo, Error>)
    requires
        rec@.len() == 12,
    ensures
        r is Ok <==> rec@[0]@.len() == 40 && rec@[2]@.len() == 40,
        r matches Ok(c) ==> commit_info_matches(c, views(rec@)),
        r matches Err(e) ==> is_invalid_hash_error(e),
{
    let commit_hash = CommitHash::new(rec[0].clone())?;
    let parent_hash = CommitHash::new(rec[2].clone())?;
    Ok(
        CommitInfo {
            commit_hash,
            parent_hash,
            author: rec[3].clone(),
            committer: rec[7].clone(),
            author_email: rec[4].clone(),
            committer_email: rec[8].clone(),
        },
    )
}

/// The name and tip hash of a branch.
pub open spec fn branch_view(b: Branch) -> (Seq<char>, Seq<char>) {
    (b.name@, b.head_hash.hash@)
}

pub open spec fn branches_view(v: Seq<Branch>) -> Seq<(Seq<char>, Seq<char>)> {
    v.map_values(|b: Branch| branch_view(b))
}

/// Every record starts with a forty-character hash.
pub open spec fn heads_valid(recs: Seq<Seq<Seq<char>>>) -> bool {
    forall|i: int| 0 <= i < recs.len() ==> (#[trigger] recs[i])[0].len() == 40
}

/// One branch named `name` for each record, at the record's first field.
pub open spec fn heads(name: Seq<char>, recs: Seq<Seq<Seq<char>>>) -> Seq<(Seq<char>, Seq<char>)> {
    recs.map_values(|rec: Seq<Seq<char>>| (name, rec[0]))
}

/// The branches named `name` at the first field of each record; fails on
/// the first record whose first field is not a valid hash.
pub fn heads_of(name: &String, records: &Vec<Vec<String>>) -> (r: Result<Vec<Branch>, Error>)
    requires
        forall|i: int| 0 <= i < records@.len() ==> (#[trigger] records@[i])@.len() >= 1,
    ensures
        r is Ok <==> heads_valid(records_view(records@)),
        r matches Ok(bs) ==> branches_view(bs@) == heads(name@, records_view(records@)),
        r matches Err(e) ==> is_invalid_hash_error(e),
{
    let ghost rv = records_view(records@);
    let mut out: Vec<Branch> = Vec::new();
    let mut i: usize = 0;
    while i < records.len()
        invariant
            i <= records@.len(),
            rv == records_view(records@),
            forall|k: int| 0 <= k < records@.len() ==> (#[trigger] records@[k])@.len() >= 1,
            forall|k: int| 0 <= k < i ==> (#[trigger] rv[k])[0].len() == 40,
            branches_view(out@) =~= heads(name@, rv.subrange(0, i as int)),
        decreases records@.len() - i,
    {
        let rec = &records[i];
        assert(rv[i as int] == views(rec@));
        let b = Branch::new(name.clone(), rec[0].clone());
        match b {
            Ok(b) => {
                let ghost before = out@;
                out.push(b);
                assert(branches_view(out@) =~= branches_view(before).push((name@, rv[i as int][0])));
                assert(heads(name@, rv.subrange(0, i + 1)) =~= heads(name@, rv.subrange(0, i as int)).push(
                    (name@, rv[i as int][0]),
                ));
            },
            Err(e) => {
                return Err(e);
            },
        }
        i = i + 1;
    }
    assert(rv.subrange(0, records@.len() as int) =~= rv);
    Ok(out)
}

/// A listing of branches in progress: the names still to be looked up and
/// the branches found so far.
pub struct BranchScan {
    names: Vec<String>,
    pos: usize,
    found: Vec<Branch>,
}

impl BranchScan {
    /// The names of all branches, in the order `git branch` gave them.
    pub closed spec fn names(&self) -> Seq<String> {
        self.names@
    }

    /// How many of the names have been looked up.
    pub closed spec fn pos(&self) -> nat {
        self.pos as nat
    }

    /// The branches found so far.
    pub closed spec fn found(&self) -> Seq<Branch> {
        self.found@
    }

    /// The name to look up next and the arguments of the `git log` call that
    /// gives its tip; `None` when all names have been looked up.
    pub fn next_lookup(&self, api: &GitApi) -> (r: Option<(String, Vec<String>)>)
        ensures
            r is None <==> self.pos() >= self.names().len(),
            r matches Some(p) ==> p.0@ == self.names()[self.pos() as int]@ && views(p.1@)
                == log_argv(p.0@, Some(1u32)),
    {
        if self.pos < self.names.len() {
            let name = self.names[self.pos].clone();
            let args = api.head_log_args(name.as_str());
            Some((name, args))
        } else {
            None
        }
    }

    /// Takes what `git log` printed for the current name: each record adds a
    /// branch of that name at the record's hash, and the scan moves to the
    /// next name. A record whose hash is invalid ends the scan with an error.
    pub fn take_log(&mut self, api: &GitApi, log_output: String) -> (r: Result<(), Error>)
        requires
            old(self).pos() < old(self).names().len(),
        ensures
            final(self).names() == old(self).names(),
            final(self).pos() == old(self).pos() + 1,
            r is Ok <==> patterns_compile() && heads_valid(log_records(split_lines(log_output@))),
            r matches Err(e) ==> (patterns_compile() ==> is_invalid_hash_error(e)),
            r is Ok ==> branches_view(final(self).found()) == branches_view(old(self).found())
                + heads(old(self).names()[old(self).pos() as int]@, log_records(split_lines(log_output@))),
            r is Ok ==> heads_valid(log_records(split_lines(log_output@))),
            r matches Err(e) ==> (is_invalid_hash_error(e) && !heads_valid(
                log_records(split_lines(log_output@)),
            )) || e is Wrapped,
    {
        let n = self.names.len();
        let p = self.pos;
        assert(p < n);
        let name = self.names[p].clone();
        self.pos = p + 1;
        let records = api.converter.git_log(log_output)?;
        let bs = heads_of(&name, &records)?;
        let ghost before = self.found@;
        let ghost added = bs@;
        let mut bs = bs;
        self.found.append(&mut bs);
        assert(branches_view(self.found@) =~= branches_view(before) + branches_view(added));
        Ok(())
    }

    /// The branches found, in the order of their names.
    pub fn into_branches(self) -> (r: Vec<Branch>)
        ensures
            branches_view(r@) == branches_view(self.found()),
    {
        self.found
    }
}

} // verus!
