//! The git synchronization engine: one run per accepted event against the
//! repository's on-disk mirror, as a state machine
//! init → fetch → merge analysis → fast-forward / normal merge / no-op →
//! optional forced checkout, any step able to fail with a git error.
//!
//! Every object-database operation is performed by the `git2` crate behind
//! a trusted wrapper; what the run decides from each operation's result —
//! which steps follow which analysis, and which outcome is reported — is
//! verified here, pinned down by [`outcome_for`].

use vstd::prelude::*;
use vstd::string::StringExecFns;
use crate::errors::GitError;

verus! {

#[verifier::external_type_specification]
#[verifier::external_body]
pub struct ExGitRepository(git2::Repository);

#[verifier::external_type_specification]
#[verifier::external_body]
pub struct ExGitErrorDecl(git2::Error);

#[verifier::external_type_specification]
#[verifier::external_body]
pub struct ExGitIndex(git2::Index);

/// What the merge analysis says about the fetched commit relative to the
/// local head.
#[derive(Clone, Copy, Debug, PartialEq, Eq, Structural)]
pub enum MergeKind {
    FastForward,
    Normal,
    UpToDate,
}

/// How one synchronization run ended.
#[derive(Clone, Copy, Debug, PartialEq, Eq, Structural)]
pub enum MergeOutcome {
    FastForward,
    NormalMergeCommitted,
    NormalMergeConflicted,
    NoOp,
}

/// What one merge run saw and reported: the analysis kind that came back,
/// whether the merged index was conflicted (normal merges only), and the
/// outcome decided from the two — which [`spec_outcome_for`] fixes.
#[derive(Clone, Copy, Debug, PartialEq, Eq, Structural)]
pub struct MergeReport {
    pub kind: MergeKind,
    pub conflicted: bool,
    pub outcome: MergeOutcome,
}

impl MergeReport {
    /// The report is consistent: its outcome is the one its analysis kind
    /// and conflict state decide, and only a normal merge can be
    /// conflicted.
    pub open spec fn wf(self) -> bool {
        &&& self.outcome == spec_outcome_for(self.kind, self.conflicted)
        &&& self.conflicted ==> self.kind is Normal
    }
}

/// Relies on `git2::Repository::init`: opens the repository at `path`,
/// creating it and any missing directories first when absent (idempotent).
#[verifier::external_body]
pub(crate) fn init_repository(path: &str) -> Result<git2::Repository, git2::Error> {
    git2::Repository::init(path)
}

/// Relies on `git2::Repository::remote_set_url` (and `Repository::remote`
/// to create the remote the first time): points the `origin` remote at
/// `url`, overwriting whatever it held. The one branch in the body only
/// tells the missing-remote error apart — create when absent, set when
/// present; nothing is decided from it beyond which call is made.
#[verifier::external_body]
pub(crate) fn set_remote_url(repo: &git2::Repository, url: &str) -> Result<(), git2::Error> {
    if repo.find_remote("origin").is_err() {
        repo.remote("origin", url).map(|_| ())
    } else {
        repo.remote_set_url("origin", url)
    }
}

/// Relies on `git2::Repository::find_remote`, `git2::Remote::fetch` with
/// `git2::AutotagOption::All` (tags are always fetched alongside the given
/// refspec), and `Repository::find_reference` /
/// `reference_to_annotated_commit` to read back `FETCH_HEAD`: downloads the
/// refspec from `origin` and returns the fetched commit's id in hex.
#[verifier::external_body]
pub fn fetch(repo: &git2::Repository, refspec: &str) -> Result<String, git2::Error> {
    let mut remote = repo.find_remote("origin")?;
    let mut opts = git2::FetchOptions::new();
    opts.download_tags(git2::AutotagOption::All);
    remote.fetch(&[refspec], Some(&mut opts), None)?;
    let head = repo.find_reference("FETCH_HEAD")?;
    let commit = repo.reference_to_annotated_commit(&head)?;
    Ok(commit.id().to_string())
}

/// Relies on `git2::Repository::merge_analysis` (with `git2::Oid::from_str`
/// and `Repository::find_annotated_commit` to name the fetched commit): the
/// analysis flags are read in the fixed order fast-forward, then normal;
/// anything else (up to date, or nothing to do) is reported as
/// [`MergeKind::UpToDate`]. An unborn local head carries the fast-forward
/// flag as well.
#[verifier::external_body]
pub(crate) fn analyze_merge(repo: &git2::Repository, oid: &str) -> Result<MergeKind, git2::Error> {
    let id = git2::Oid::from_str(oid)?;
    let commit = repo.find_annotated_commit(id)?;
    let (analysis, _) = repo.merge_analysis(&[&commit])?;
    if analysis.is_fast_forward() {
        Ok(MergeKind::FastForward)
    } else if analysis.is_normal() {
        Ok(MergeKind::Normal)
    } else {
        Ok(MergeKind::UpToDate)
    }
}

/// Relies on `git2::Repository::find_reference`: whether the repository has
/// a reference named `refname`.
#[verifier::external_body]
pub(crate) fn has_reference(repo: &git2::Repository, refname: &str) -> bool {
    repo.find_reference(refname).is_ok()
}

/// Relies on `git2::Reference::set_target` (with `Repository::find_reference`
/// and `git2::Oid::from_str`): retargets the existing reference `refname`
/// to the commit `oid`.
#[verifier::external_body]
pub(crate) fn retarget_reference(
    repo: &git2::Repository,
    refname: &str,
    oid: &str,
) -> Result<(), git2::Error> {
    let id = git2::Oid::from_str(oid)?;
    let mut r = repo.find_reference(refname)?;
    r.set_target(id, "fast-forward")?;
    Ok(())
}

/// Relies on `git2::Repository::reference` (with `git2::Oid::from_str`):
/// creates — or force-overwrites — the reference `refname` pointing
/// directly at the commit `oid`.
#[verifier::external_body]
pub(crate) fn create_reference(
    repo: &git2::Repository,
    refname: &str,
    oid: &str,
) -> Result<(), git2::Error> {
    let id = git2::Oid::from_str(oid)?;
    repo.reference(refname, id, true, "created by sync")?;
    Ok(())
}

/// Relies on `git2::Repository::set_head`: makes `refname` the current
/// head.
#[verifier::external_body]
pub(crate) fn set_repo_head(repo: &git2::Repository, refname: &str) -> Result<(), git2::Error> {
    repo.set_head(refname)
}

/// Relies on `git2::Repository::checkout_head` with a forced
/// `git2::build::CheckoutBuilder`: makes the working tree match the head,
/// discarding local modifications.
#[verifier::external_body]
pub(crate) fn checkout_head_force(repo: &git2::Repository) -> Result<(), git2::Error> {
    repo.checkout_head(Some(git2::build::CheckoutBuilder::default().force()))
}

/// Relies on `git2::Repository::checkout_head` with a forced
/// `git2::build::CheckoutBuilder` that also allows conflicts (merge
/// conflict style): used right after a reference was first created.
#[verifier::external_body]
pub(crate) fn checkout_head_force_allow_conflicts(
    repo: &git2::Repository,
) -> Result<(), git2::Error> {
    repo.checkout_head(
        Some(
            git2::build::CheckoutBuilder::default().allow_conflicts(true).conflict_style_merge(
                true,
            ).force(),
        ),
    )
}

/// Relies on `git2::Repository::head` and
/// `Repository::reference_to_annotated_commit`: the id of the commit the
/// current head points at, in hex.
#[verifier::external_body]
pub(crate) fn head_commit_id(repo: &git2::Repository) -> Result<String, git2::Error> {
    let head = repo.head()?;
    let commit = repo.reference_to_annotated_commit(&head)?;
    Ok(commit.id().to_string())
}

/// Relies on `git2::Repository::merge_trees` over the trees of the two
/// commits and of their merge base (`Repository::merge_base`,
/// `Repository::find_commit`, `git2::Commit::tree`): the index of the
/// three-way merge of `local` and `remote` against their common ancestor.
#[verifier::external_body]
pub(crate) fn merge_into_index(
    repo: &git2::Repository,
    local: &str,
    remote: &str,
) -> Result<git2::Index, git2::Error> {
    let l = git2::Oid::from_str(local)?;
    let r = git2::Oid::from_str(remote)?;
    let local_tree = repo.find_commit(l)?.tree()?;
    let remote_tree = repo.find_commit(r)?.tree()?;
    let base_tree = repo.find_commit(repo.merge_base(l, r)?)?.tree()?;
    repo.merge_trees(&base_tree, &local_tree, &remote_tree, None)
}

/// Relies on `git2::Index::has_conflicts`: whether the merged index holds
/// conflicting entries.
#[verifier::external_body]
pub(crate) fn index_has_conflicts(index: &git2::Index) -> bool {
    index.has_conflicts()
}

/// Relies on `git2::Repository::checkout_index` with a forced
/// `git2::build::CheckoutBuilder` that allows conflicts (merge conflict
/// style): writes the conflicted index out to the working tree as it
/// stands, so a merge conflict ends the run without being a hard failure.
#[verifier::external_body]
pub(crate) fn checkout_index_state(
    repo: &git2::Repository,
    index: &mut git2::Index,
) -> Result<(), git2::Error> {
    let mut builder = git2::build::CheckoutBuilder::default();
    builder.allow_conflicts(true).conflict_style_merge(true).force();
    repo.checkout_index(Some(index), Some(&mut builder))
}

/// Relies on `git2::Repository::commit` on `HEAD` with the two parents
/// `local` and `remote` (with `git2::Index::write_tree_to`,
/// `Repository::find_tree`, `Repository::signature` for the committing
/// identity, and `Repository::find_commit`): finalizes the merged index as
/// a merge commit carrying `message` and returns its id in hex.
#[verifier::external_body]
pub(crate) fn commit_merge(
    repo: &git2::Repository,
    index: &mut git2::Index,
    local: &str,
    remote: &str,
    message: &str,
) -> Result<String, git2::Error> {
    let tree = repo.find_tree(index.write_tree_to(repo)?)?;
    let sig = repo.signature()?;
    let l = repo.find_commit(git2::Oid::from_str(local)?)?;
    let r = repo.find_commit(git2::Oid::from_str(remote)?)?;
    let id = repo.commit(Some("HEAD"), &sig, &sig, message, &tree, &[&l, &r])?;
    Ok(id.to_string())
}

/// Relies on `git2::Repository::reset` with `git2::ResetType::Hard` and a
/// forced checkout (with `git2::Oid::from_str` and
/// `Repository::find_commit`): hard-resets head, index and working tree to
/// the commit `hash`, discarding any differing state.
#[verifier::external_body]
pub fn checkout(repo: &git2::Repository, hash: &str) -> Result<(), git2::Error> {
    let oid = git2::Oid::from_str(hash)?;
    let commit = repo.find_commit(oid)?;
    let mut builder = git2::build::CheckoutBuilder::default();
    builder.force();
    repo.reset(commit.as_object(), git2::ResetType::Hard, Some(&mut builder))
}

/// Relies on `git2::Error::message` (with `str::to_owned`): the text of the
/// error.
#[verifier::external_body]
pub(crate) fn git_error_text(e: &git2::Error) -> String {
    e.message().to_owned()
}

/// Wraps a git error's text in the library's own error type.
pub(crate) fn to_git_error(e: &git2::Error) -> GitError {
    GitError(git_error_text(e))
}

/// The outcome a run reports for a given analysis: a fast-forward is
/// reported as such, an already-reachable fetched commit changes nothing,
/// and a normal merge is committed exactly when the merged index had no
/// conflicts.
pub open spec fn spec_outcome_for(kind: MergeKind, conflicted: bool) -> MergeOutcome {
    match kind {
        MergeKind::FastForward => MergeOutcome::FastForward,
        MergeKind::UpToDate => MergeOutcome::NoOp,
        MergeKind::Normal => if conflicted {
            MergeOutcome::NormalMergeConflicted
        } else {
            MergeOutcome::NormalMergeCommitted
        },
    }
}

/// Decides the outcome of a run from the merge analysis and the conflict
/// state of the merged index, exactly as [`spec_outcome_for`] states.
pub fn outcome_for(kind: MergeKind, conflicted: bool) -> (o: MergeOutcome)
    ensures
        o == spec_outcome_for(kind, conflicted),
{
    match kind {
        MergeKind::FastForward => MergeOutcome::FastForward,
        MergeKind::UpToDate => MergeOutcome::NoOp,
        MergeKind::Normal => if conflicted {
            MergeOutcome::NormalMergeConflicted
        } else {
            MergeOutcome::NormalMergeCommitted
        },
    }
}

/// Performs a fast-forward of the existing reference `refname` onto the
/// fetched commit: retarget the reference, make it the head, and force the
/// working tree to match.
fn fast_forward(repo: &git2::Repository, refname: &str, oid: &str) -> Result<(), git2::Error> {
    retarget_reference(repo, refname, oid)?;
    set_repo_head(repo, refname)?;
    checkout_head_force(repo)
}

/// Performs a normal merge of the fetched commit into the local head: the
/// two trees are three-way merged against their merge base; without
/// conflicts the result is committed with both parents, with conflicts the
/// conflicted index is checked out as-is and no commit is created.
fn normal_merge(repo: &git2::Repository, local: &str, remote: &str) -> (r: Result<
    MergeReport,
    git2::Error,
>)
    ensures
        r matches Ok(rep) ==> rep.wf() && rep.kind is Normal,
{
    let mut index = match merge_into_index(repo, local, remote) {
        Ok(i) => i,
        Err(e) => return Err(e),
    };
    let conflicted = index_has_conflicts(&index);
    let outcome = outcome_for(MergeKind::Normal, conflicted);
    let report = MergeReport { kind: MergeKind::Normal, conflicted, outcome };
    if conflicted {
        match checkout_index_state(repo, &mut index) {
            Ok(()) => {},
            Err(e) => return Err(e),
        }
    } else {
        let message = String::from_str("Merge: ").concat(remote).concat(" into ").concat(local);
        match commit_merge(repo, &mut index, local, remote, message.as_str()) {
            Ok(_id) => {},
            Err(e) => return Err(e),
        }
    }
    Ok(report)
}

/// Merges the fetched commit `fetched_oid` into the local reference
/// `refname`, after running the merge analysis: a fast-forward retargets
/// (or first creates) the reference and checks it out; diverged histories
/// take a normal merge; an already-reachable commit is a no-op. A merge
/// conflict is not a failure: the run completes with the conflicted tree.
/// The report carries the analysis kind and conflict state the run saw,
/// and its outcome is provably the one they decide; the kind itself is an
/// outside value, answered by git for the on-disk repository.
pub fn merge(repo: &git2::Repository, refname: &str, fetched_oid: &str) -> (r: Result<
    MergeReport,
    git2::Error,
>)
    ensures
        r matches Ok(rep) ==> rep.wf(),
{
    let kind = match analyze_merge(repo, fetched_oid) {
        Ok(k) => k,
        Err(e) => return Err(e),
    };
    match kind {
        MergeKind::FastForward => {
            if has_reference(repo, refname) {
                match fast_forward(repo, refname, fetched_oid) {
                    Ok(()) => {},
                    Err(e) => return Err(e),
                }
            } else {
                match create_reference(repo, refname, fetched_oid) {
                    Ok(()) => {},
                    Err(e) => return Err(e),
                }
                match set_repo_head(repo, refname) {
                    Ok(()) => {},
                    Err(e) => return Err(e),
                }
                match checkout_head_force_allow_conflicts(repo) {
                    Ok(()) => {},
                    Err(e) => return Err(e),
                }
            }
            let outcome = outcome_for(MergeKind::FastForward, false);
            Ok(MergeReport { kind: MergeKind::FastForward, conflicted: false, outcome })
        },
        MergeKind::Normal => {
            let local = match head_commit_id(repo) {
                Ok(id) => id,
                Err(e) => return Err(e),
            };
            normal_merge(repo, local.as_str(), fetched_oid)
        },
        MergeKind::UpToDate => {
            let outcome = outcome_for(MergeKind::UpToDate, false);
            Ok(MergeReport { kind: MergeKind::UpToDate, conflicted: false, outcome })
        },
    }
}

/// One full synchronization run against the mirror at `path`: open or
/// create the repository, point `origin` at `clone_url`, fetch the given
/// refspec, merge the fetched commit into it, and — for push events — hard
/// reset the tree to `checkout_after`, the exact commit the provider
/// reported, overriding whatever the merge produced. Any git failure ends
/// the run as a [`GitError`]; no job should be produced from one. A
/// successful run hands back the merge step's report, whose outcome is
/// provably the one its analysis kind and conflict state decide.
pub fn sync_repository(
    path: &str,
    clone_url: &str,
    fetch_refspec: &str,
    checkout_after: &Option<String>,
) -> (r: Result<MergeReport, GitError>)
    ensures
        r matches Ok(rep) ==> rep.wf(),
{
    let repo = match init_repository(path) {
        Ok(r) => r,
        Err(e) => return Err(to_git_error(&e)),
    };
    match set_remote_url(&repo, clone_url) {
        Ok(()) => {},
        Err(e) => return Err(to_git_error(&e)),
    }
    let fetched = match fetch(&repo, fetch_refspec) {
        Ok(c) => c,
        Err(e) => return Err(to_git_error(&e)),
    };
    let report = match merge(&repo, fetch_refspec, fetched.as_str()) {
        Ok(rep) => rep,
        Err(e) => return Err(to_git_error(&e)),
    };
    match checkout_after {
        Some(commit) => {
            match checkout(&repo, commit.as_str()) {
                Ok(()) => {},
                Err(e) => return Err(to_git_error(&e)),
            }
        },
        None => {},
    }
    Ok(report)
}

} // verus!
