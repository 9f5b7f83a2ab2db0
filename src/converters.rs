use vstd::prelude::*;
use crate::text::{lines, split_lines, trim_text, trimmed, views};
use crate::types::Error;

verus! {

#[verifier::external_type_specification]
#[verifier::external_body]
pub struct ExRegex(regex::Regex);

/// The groups that `regex::Regex::captures` reports for the leftmost-first
/// match of `pattern` in `text`, group 0 (the whole match) first; `None`
/// where the pattern does not match. It depends on its two arguments alone.
pub uninterp spec fn captures_of(pattern: Seq<char>, text: Seq<char>) -> Option<
    Seq<Option<Seq<char>>>,
>;

/// Whether `regex::Regex::new` accepts `pattern`. With the default builder
/// this depends on the pattern text alone.
pub uninterp spec fn regex_compiles(pattern: Seq<char>) -> bool;

/// Relies on `regex::Regex::new` to compile a pattern; its error is kept as
/// its message.
#[verifier::external_body]
fn compile_regex(pattern: &str) -> (r: Result<regex::Regex, String>)
    ensures
        r is Ok <==> regex_compiles(pattern@),
{
    regex::Regex::new(pattern).map_err(|e| e.to_string())
}

/// A compiled regular expression together with the text it was compiled from.
pub struct Pattern {
    re: regex::Regex,
    source: Ghost<Seq<char>>,
}

pub open spec fn group_views(g: Seq<Option<String>>) -> Seq<Option<Seq<char>>> {
    g.map_values(
        |o: Option<String>|
            match o {
                Some(x) => Some(x@),
                None => None,
            },
    )
}

impl Pattern {
    /// The text this pattern was compiled from.
    pub closed spec fn source(&self) -> Seq<char> {
        self.source@
    }

    /// Compiles `pattern`; a pattern the regex engine refuses gives its message.
    pub fn new(pattern: &str) -> (r: Result<Pattern, Error>)
        ensures
            r is Ok <==> regex_compiles(pattern@),
            r matches Ok(p) ==> p.source() == pattern@,
            r matches Err(e) ==> e is Wrapped,
    {
        match compile_regex(pattern) {
            Ok(re) => Ok(Pattern { re, source: Ghost(pattern@) }),
            Err(msg) => Err(Error::Wrapped(msg)),
        }
    }

    /// Relies on `regex::Regex::captures` and `regex::Captures::iter`: every
    /// group of the first match, group 0 first, a group that took no part in
    /// the match as `None`. A `Pattern` is only ever made by `Pattern::new`,
    /// so `self.re` was compiled from `self.source()`.
    #[verifier::external_body]
    pub(crate) fn captures(&self, text: &str) -> (r: Option<Vec<Option<String>>>)
        ensures
            r matches Some(g) ==> captures_of(self.source(), text@) == Some(group_views(g@)),
            r is None ==> captures_of(self.source(), text@) is None,
    {
        self.re.captures(text).map(
            |c| c.iter().map(|m| m.map(|m| m.as_str().to_string())).collect(),
        )
    }
}

// ---------------------------------------------------------------- branches

/// The name that one non-empty line of `git branch` output stands for: a
/// line `* <rest>` (with a non-empty rest) names `<rest>`, any other line
/// names itself; either way trimmed.
pub open spec fn branch_name(line: Seq<char>) -> Seq<char> {
    if line.len() >= 3 && line[0] == '*' && line[1] == ' ' {
        trimmed(line.subrange(2, line.len() as int))
    } else {
        trimmed(line)
    }
}

/// The branch names of a sequence of lines: one for each non-empty line, in order.
pub open spec fn branch_names(ls: Seq<Seq<char>>) -> Seq<Seq<char>>
    decreases ls.len(),
{
    if ls.len() == 0 {
        Seq::empty()
    } else {
        let rest = branch_names(ls.drop_last());
        if ls.last().len() == 0 {
            rest
        } else {
            rest.push(branch_name(ls.last()))
        }
    }
}

/// The number of non-empty lines.
pub open spec fn count_nonempty(ls: Seq<Seq<char>>) -> nat
    decreases ls.len(),
{
    if ls.len() == 0 {
        0
    } else {
        count_nonempty(ls.drop_last()) + if ls.last().len() == 0 {
            0nat
        } else {
            1nat
        }
    }
}

/// There is one branch name for every non-empty line.
pub proof fn lemma_branch_names_len(ls: Seq<Seq<char>>)
    ensures
        branch_names(ls).len() == count_nonempty(ls),
    decreases ls.len(),
{
    if ls.len() > 0 {
        lemma_branch_names_len(ls.drop_last());
    }
}

/// The name that one non-empty line stands for.
pub fn branch_name_of(line: &str) -> (r: String)
    ensures
        r@ == branch_name(line@),
{
    let n = line.unicode_len();
    if n >= 3 && line.get_char(0) == '*' && line.get_char(1) == ' ' {
        trim_text(line.substring_char(2, n))
    } else {
        trim_text(line)
    }
}

// ---------------------------------------------------------------- log records

/// The pattern of a line wrapped in double quotes, possibly indented.
pub open spec fn quoted_pattern() -> Seq<char> {
    "^ *\"(.+)\" *$"@
}

/// The pattern of one record of the log template: twelve fields.
pub open spec fn record_pattern() -> Seq<char> {
    "(.+?) (.+?) (.*) (.+) (.+) (.+) \"(.+?)\" (.+?) (.+?) (.+?) \"(.+?)\" \\[(.+)\\]"@
}

/// Both patterns of the log grammar are accepted by the regex engine.
pub open spec fn patterns_compile() -> bool {
    regex_compiles(record_pattern()) && regex_compiles(quoted_pattern())
}

/// A line with its surrounding quotes (and the blanks round them) removed;
/// a line without them is kept as it is.
pub open spec fn unquoted(line: Seq<char>) -> Seq<char> {
    unquoted_groups(captures_of(quoted_pattern(), line), line)
}

/// The inner text that a match of the quoted-line pattern gives, or the
/// line itself where there is no match.
pub open spec fn unquoted_groups(g: Option<Seq<Option<Seq<char>>>>, line: Seq<char>) -> Seq<char> {
    match g {
        Some(g) => if g.len() > 1 && g[1] is Some {
            g[1]->0
        } else {
            line
        },
        None => line,
    }
}

/// The record that a match of the record pattern gives: groups 1 to 12,
/// where all twelve took part in the match.
pub open spec fn record_of_groups(g: Seq<Option<Seq<char>>>) -> Option<Seq<Seq<char>>> {
    if g.len() == 13 && (forall|k: int| 1 <= k < 13 ==> (#[trigger] g[k]) is Some) {
        Some(Seq::new(12, |k: int| g[k + 1]->0))
    } else {
        None
    }
}

/// The record that one line of `git log` output holds, if any.
pub open spec fn record_of(line: Seq<char>) -> Option<Seq<Seq<char>>> {
    match captures_of(record_pattern(), unquoted(line)) {
        Some(g) => record_of_groups(g),
        None => None,
    }
}

/// The records of a sequence of lines, in order; lines that hold none are skipped.
pub open spec fn log_records(ls: Seq<Seq<char>>) -> Seq<Seq<Seq<char>>>
    decreases ls.len(),
{
    if ls.len() == 0 {
        Seq::empty()
    } else {
        let rest = log_records(ls.drop_last());
        match record_of(ls.last()) {
            Some(rec) => rest.push(rec),
            None => rest,
        }
    }
}

/// Every record has exactly twelve fields.
pub proof fn lemma_log_records_twelve(ls: Seq<Seq<char>>)
    ensures
        forall|i: int| 0 <= i < log_records(ls).len() ==> (#[trigger] log_records(ls)[i]).len() == 12,
    decreases ls.len(),
{
    if ls.len() > 0 {
        lemma_log_records_twelve(ls.drop_last());
        let rest = log_records(ls.drop_last());
        if let Some(rec) = record_of(ls.last()) {
            let g = captures_of(record_pattern(), unquoted(ls.last()))->0;
            assert(rec == Seq::new(12, |k: int| g[k + 1]->0));
            assert forall|i: int| 0 <= i < log_records(ls).len() implies (#[trigger] log_records(
                ls,
            )[i]).len() == 12 by {
                if i < rest.len() {
                    assert(log_records(ls)[i] == rest[i]);
                }
            }
        }
    }
}

pub open spec fn records_view(v: Seq<Vec<String>>) -> Seq<Seq<Seq<char>>> {
    v.map_values(|r: Vec<String>| views(r@))
}

/// Groups 1 to 12 of a match of the record pattern, if all took part.
pub fn record_from_groups(g: &Vec<Option<String>>) -> (r: Option<Vec<String>>)
    ensures
        r matches Some(rec) ==> record_of_groups(group_views(g@)) == Some(views(rec@)),
        r is None ==> record_of_groups(group_views(g@)) is None,
{
    let ghost gv = group_views(g@);
    if g.len() != 13 {
        return None;
    }
    let mut rec: Vec<String> = Vec::new();
    let mut j: usize = 1;
    while j < 13
        invariant
            g@.len() == 13,
            gv == group_views(g@),
            1 <= j <= 13,
            rec@.len() == j - 1,
            forall|k: int| 1 <= k < j ==> (#[trigger] gv[k]) is Some,
            forall|k: int| 0 <= k < j - 1 ==> (#[trigger] views(rec@)[k]) == gv[k + 1]->0,
        decreases 13 - j,
    {
        match &g[j] {
            Some(x) => {
                let ghost before = rec@;
                let field = x.clone();
                assert(gv[j as int] == Some(x@));
                rec.push(field);
                assert(views(rec@) =~= views(before).push(field@));
            },
            None => {
                assert(gv[j as int] is None);
                return None;
            },
        }
        j = j + 1;
    }
    assert(views(rec@) =~= Seq::new(12, |k: int| gv[k + 1]->0));
    Some(rec)
}

pub open spec fn opt_groups_view(g: Option<Vec<Option<String>>>) -> Option<Seq<Option<Seq<char>>>> {
    match g {
        Some(v) => Some(group_views(v@)),
        None => None,
    }
}

/// The inner text of a quoted line, from the groups that the quoted-line
/// pattern gave for it; the line itself where it did not match.
pub fn unquote_groups(groups: Option<Vec<Option<String>>>, line: &String) -> (r: String)
    ensures
        r@ == unquoted_groups(opt_groups_view(groups), line@),
{
    match groups {
        Some(g) => {
            if g.len() > 1 {
                match &g[1] {
                    Some(x) => x.clone(),
                    None => line.clone(),
                }
            } else {
                line.clone()
            }
        },
        None => line.clone(),
    }
}

/// The records of `git log` output, given the two patterns compiled.
pub fn log_records_with(quoted: &Pattern, record: &Pattern, input: &str) -> (r: Vec<Vec<String>>)
    requires
        quoted.source() == quoted_pattern(),
        record.source() == record_pattern(),
    ensures
        records_view(r@) == log_records(split_lines(input@)),
{
    let ls = lines(input);
    let mut records: Vec<Vec<String>> = Vec::new();
    let mut i: usize = 0;
    proof {
        assert(records_view(records@) =~= Seq::<Seq<Seq<char>>>::empty());
    }
    while i < ls.len()
        invariant
            i <= ls@.len(),
            quoted.source() == quoted_pattern(),
            record.source() == record_pattern(),
            views(ls@) == split_lines(input@),
            records_view(records@) == log_records(views(ls@).subrange(0, i as int)),
        decreases ls@.len() - i,
    {
        let line = &ls[i];
        proof {
            assert(views(ls@).subrange(0, i + 1).drop_last() =~= views(ls@).subrange(0, i as int));
            assert(views(ls@).subrange(0, i + 1).last() == line@);
        }
        let cleaned = unquote_groups(quoted.captures(line.as_str()), line);
        assert(cleaned@ == unquoted(line@));
        let ghost before = records@;
        match record.captures(cleaned.as_str()) {
            Some(g) => {
                match record_from_groups(&g) {
                    Some(rec) => {
                        records.push(rec);
                        proof {
                            assert(records_view(records@) =~= records_view(before).push(
                                record_of(line@)->0,
                            ));
                        }
                    },
                    None => {},
                }
            },
            None => {},
        }
        i = i + 1;
    }
    proof {
        assert(views(ls@).subrange(0, ls@.len() as int) =~= views(ls@));
    }
    records
}

/// The two parsers are functions of their input: equal texts give equal
/// branch lists and equal record lists. Whether the log parser succeeds at
/// all depends on its fixed patterns alone (`patterns_compile`).
pub proof fn lemma_parsers_deterministic(a: Seq<char>, b: Seq<char>)
    requires
        a == b,
    ensures
        branch_names(split_lines(a)) == branch_names(split_lines(b)),
        log_records(split_lines(a)) == log_records(split_lines(b)),
{
}

/// Turns the output of `git` commands into values.
pub struct Converters;

impl Converters {
    pub fn new() -> (r: Converters) {
        Converters
    }

    /// The branch names that `git branch` printed: one for each non-empty
    /// line, with the marker of the current branch and surrounding white
    /// space removed.
    pub fn git_branch(&self, input: String) -> (r: Result<Vec<String>, Error>)
        ensures
            r is Ok,
            r matches Ok(names) ==> views(names@) == branch_names(split_lines(input@)),
            r matches Ok(names) ==> names@.len() == count_nonempty(split_lines(input@)),
    {
        let ls = lines(input.as_str());
        let mut names: Vec<String> = Vec::new();
        let mut i: usize = 0;
        proof {
            assert(views(names@) =~= Seq::<Seq<char>>::empty());
        }
        while i < ls.len()
            invariant
                i <= ls@.len(),
                views(ls@) == split_lines(input@),
                views(names@) == branch_names(views(ls@).subrange(0, i as int)),
            decreases ls@.len() - i,
        {
            let line = &ls[i];
            let ghost before = names@;
            proof {
                assert(views(ls@).subrange(0, i + 1).drop_last() =~= views(ls@).subrange(
                    0,
                    i as int,
                ));
                assert(views(ls@).subrange(0, i + 1).last() == line@);
            }
            if line.as_str().unicode_len() > 0 {
                let name = branch_name_of(line.as_str());
                names.push(name);
                proof {
                    assert(views(names@) =~= views(before).push(branch_name(line@)));
                }
            }
            i = i + 1;
        }
        proof {
            assert(views(ls@).subrange(0, ls@.len() as int) =~= views(ls@));
            lemma_branch_names_len(views(ls@));
        }
        Ok(names)
    }

    /// The records of `git log` output printed with the log template: one
    /// for each line that holds one, each of twelve fields, in order. Fails
    /// exactly where the regex engine refuses one of the two fixed patterns,
    /// which does not depend on the input.
    pub fn git_log(&self, input: String) -> (r: Result<Vec<Vec<String>>, Error>)
        ensures
            r is Ok <==> patterns_compile(),
            r matches Ok(recs) ==> records_view(recs@) == log_records(split_lines(input@)),
            r matches Ok(recs) ==> forall|i: int|
                0 <= i < recs@.len() ==> (#[trigger] recs@[i])@.len() == 12,
            r matches Err(e) ==> e is Wrapped,
    {
        let record = Pattern::new(
            "(.+?) (.+?) (.*) (.+) (.+) (.+) \"(.+?)\" (.+?) (.+?) (.+?) \"(.+?)\" \\[(.+)\\]",
        )?;
        let quoted = Pattern::new("^ *\"(.+)\" *$")?;
        let recs = log_records_with(&quoted, &record, input.as_str());
        proof {
            lemma_log_records_twelve(split_lines(input@));
            assert forall|i: int| 0 <= i < recs@.len() implies (#[trigger] recs@[i])@.len() == 12 by {
                assert(records_view(recs@)[i] == views(recs@[i]@));
            }
        }
        Ok(recs)
    }
}

} // verus!
