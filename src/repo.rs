//! The status summary of a git repository.

use vstd::prelude::*;
use crate::render::{ansi_strings, ansi_text, bold, plain, summary_spec, summary_tokens, Colour};
use crate::status::{
    classify, flags_of, lemma_flags_depend_on_entry_set, lemma_unchanged_is_clean, CURRENT,
};

verus! {

#[verifier::external_type_specification]
#[verifier::external_body]
pub struct ExRepository(git2::Repository);

#[verifier::external_type_specification]
#[verifier::external_body]
pub struct ExError(git2::Error);

#[verifier::external_type_specification]
#[verifier::external_body]
pub struct ExOid(git2::Oid);

#[verifier::external_type_specification]
#[verifier::external_body]
pub struct ExReference<'repo>(git2::Reference<'repo>);

#[verifier::external_type_specification]
#[verifier::external_body]
pub struct ExObject<'repo>(git2::Object<'repo>);

/// Relies on git2's `Repository::head`: the reference HEAD points to, or an
/// error (unborn branch, unreadable HEAD).
pub assume_specification[ git2::Repository::head ](repo: &git2::Repository) -> Result<
    git2::Reference<'_>,
    git2::Error,
>;

/// Relies on git2's `Reference::shorthand`: the reference's short name, or an
/// error when it is not UTF-8.
pub assume_specification<'repo, 'a>[ git2::Reference::<'repo>::shorthand ](
    r: &'a git2::Reference<'repo>,
) -> Result<&'a str, git2::Error>;

/// Relies on git2's `Repository::revparse_single`: the object that a revision
/// string names, or an error.
pub assume_specification<'a, 'b>[ git2::Repository::revparse_single ](
    repo: &'a git2::Repository,
    spec: &'b str,
) -> Result<git2::Object<'a>, git2::Error>;

/// Relies on git2's `Object::id`: the object's id.
pub assume_specification<'repo>[ git2::Object::<'repo>::id ](o: &git2::Object<'repo>) -> git2::Oid;

/// Relies on git2's `Repository::graph_ahead_behind`: the numbers of commits
/// reachable from `local` but not `upstream`, and the reverse, or an error.
pub assume_specification[ git2::Repository::graph_ahead_behind ](
    repo: &git2::Repository,
    local: git2::Oid,
    upstream: git2::Oid,
) -> Result<(usize, usize), git2::Error>;

/// Relies on git2's `Repository::statuses`, with untracked files included:
/// the status bits of each entry, or an error.
#[verifier::external_body]
fn status_entries(repo: &git2::Repository) -> Result<Vec<u32>, git2::Error> {
    let mut opts = git2::StatusOptions::new();
    opts.include_untracked(true);
    let statuses = repo.statuses(Some(&mut opts))?;
    Ok(statuses.iter().map(|e| e.status().bits()).collect())
}

/// Relies on git2's `Repository::discover`: the repository that encloses
/// `path`, searching upwards, or an error when there is none.
#[verifier::external_body]
fn discover_repository(path: &str) -> Result<git2::Repository, git2::Error> {
    git2::Repository::discover(path)
}

/// Whether HEAD is ahead of and behind its upstream, from the commit counts
/// of the comparison, if there was one.
pub open spec fn divergence_spec(counts: Option<(usize, usize)>) -> (bool, bool) {
    match counts {
        Some((ahead, behind)) => (ahead > 0, behind > 0),
        None => (false, false),
    }
}

/// Turns the ahead/behind commit counts into the two flags; without an
/// upstream to compare with both are false.
pub fn divergence(counts: Option<(usize, usize)>) -> (r: (bool, bool))
    ensures
        r == divergence_spec(counts),
        counts is None ==> r == (false, false),
{
    match counts {
        Some((ahead, behind)) => (ahead > 0, behind > 0),
        None => (false, false),
    }
}

/// The rendered summary of a repository on `branch`, with the given status
/// entries and ahead/behind counts.
pub open spec fn summary_text(branch: Seq<char>, entries: Seq<u32>, counts: Option<(usize, usize)>) -> Seq<char> {
    let (ahead, behind) = divergence_spec(counts);
    ansi_text(summary_spec(branch, flags_of(entries), ahead, behind))
}

/// Renders the summary of a repository from what was read of it.
pub fn summarize(branch: &str, entries: &Vec<u32>, counts: Option<(usize, usize)>) -> (r: String)
    ensures
        r@ == summary_text(branch@, entries@, counts),
{
    let flags = classify(entries);
    let (ahead, behind) = divergence(counts);
    let tokens = summary_tokens(branch, flags, ahead, behind);
    ansi_strings(&tokens)
}

/// Counts the commits by which HEAD and its upstream differ; `None` when
/// there is no upstream or the comparison fails.
fn upstream_counts(repo: &git2::Repository) -> Option<(usize, usize)> {
    let head = match repo.revparse_single("HEAD") {
        Ok(o) => o.id(),
        Err(_) => return None,
    };
    let upstream = match repo.revparse_single("@{u}") {
        Ok(o) => o.id(),
        Err(_) => return None,
    };
    match repo.graph_ahead_behind(head, upstream) {
        Ok(counts) => Some(counts),
        Err(_) => None,
    }
}

/// The status summary of a repository: `None` when HEAD or the status
/// entries cannot be read; otherwise the summary of what was read.
pub fn repo_status(repo: &git2::Repository) -> (r: Option<String>)
    ensures
        r matches Some(s) ==> exists|branch: Seq<char>, entries: Seq<u32>, counts: Option<(usize, usize)>|
            s@ == summary_text(branch, entries, counts),
{
    let head = match repo.head() {
        Ok(h) => h,
        Err(_) => return None,
    };
    let branch = match head.shorthand() {
        Ok(b) => b,
        Err(_) => return None,
    };
    let entries = match status_entries(repo) {
        Ok(e) => e,
        Err(_) => return None,
    };
    let counts = upstream_counts(repo);
    let s = summarize(branch, &entries, counts);
    assert(s@ == summary_text(branch@, entries@, counts));
    Some(s)
}

/// The status summary of the repository that encloses `path`, if any.
pub fn branch_summary(path: &str) -> (r: Option<String>)
    ensures
        r matches Some(s) ==> exists|branch: Seq<char>, entries: Seq<u32>, counts: Option<(usize, usize)>|
            s@ == summary_text(branch, entries, counts),
{
    match discover_repository(path) {
        Ok(repo) => repo_status(&repo),
        Err(_) => None,
    }
}

/// A repository whose entries are all unchanged, and which does not diverge
/// from an upstream, shows its branch name and the clean glyph, nothing else.
pub proof fn lemma_clean_summary(branch: Seq<char>, entries: Seq<u32>)
    requires
        forall|i: int| 0 <= i < entries.len() ==> entries[i] == CURRENT,
    ensures
        flags_of(entries).spec_is_clean(),
        summary_text(branch, entries, None) == ansi_text(
            seq![(plain(Colour::Green), branch), (bold(Colour::Green), " ✔"@)],
        ),
{
    lemma_unchanged_is_clean(entries);
    let f = flags_of(entries);
    assert(summary_spec(branch, f, false, false) =~= seq![
        (plain(Colour::Green), branch),
        (bold(Colour::Green), " ✔"@),
    ]);
}

/// Re-reading an unchanged repository renders the same summary, whatever the
/// order in which its status entries come: the summary depends on the branch,
/// the set of entry statuses and the upstream counts alone.
pub proof fn lemma_summary_depends_on_entry_set(
    branch: Seq<char>,
    e1: Seq<u32>,
    e2: Seq<u32>,
    counts: Option<(usize, usize)>,
)
    requires
        e1.to_set() == e2.to_set(),
    ensures
        summary_text(branch, e1, counts) == summary_text(branch, e2, counts),
{
    lemma_flags_depend_on_entry_set(e1, e2);
}

/// Without an upstream to compare with, neither arrow is shown.
pub proof fn lemma_no_upstream_no_arrows(branch: Seq<char>, entries: Seq<u32>)
    ensures
        divergence_spec(None) == (false, false),
        summary_text(branch, entries, None) == ansi_text(
            summary_spec(branch, flags_of(entries), false, false),
        ),
{
}

} // verus!
