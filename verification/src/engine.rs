//! The version-control engine: the `git2` types and calls the crate relies on.
//!
//! Nothing here is proved. Every function below wraps one engine call; what
//! such a call returns depends on the repository on disk, so the wrappers
//! promise nothing about it, but for the inputs that the engine refuses
//! before it looks at the repository.

use vstd::prelude::*;
use crate::diff::DiffLine;
use crate::status::ChangeStatus;

verus! {

#[verifier::external_type_specification]
#[verifier::external_body]
pub struct ExRepository(git2::Repository);

#[verifier::external_type_specification]
#[verifier::external_body]
pub struct ExEngineError(git2::Error);

#[verifier::external_type_specification]
#[verifier::external_body]
pub struct ExIndex(git2::Index);

#[verifier::external_type_specification]
#[verifier::external_body]
pub struct ExOid(git2::Oid);

#[verifier::external_type_specification]
#[verifier::external_body]
pub struct ExReference<'repo>(git2::Reference<'repo>);

#[verifier::external_type_specification]
#[verifier::external_body]
pub struct ExTree<'repo>(git2::Tree<'repo>);

#[verifier::external_type_specification]
#[verifier::external_body]
pub struct ExCommit<'repo>(git2::Commit<'repo>);

#[verifier::external_type_specification]
#[verifier::external_body]
pub struct ExDiff<'repo>(git2::Diff<'repo>);

#[verifier::external_type_specification]
#[verifier::external_body]
pub struct ExSignature<'a>(git2::Signature<'a>);

/// `git2::Repository::open`: opens the repository rooted at `path`. Whether
/// it succeeds depends on what the path holds, with one exception that the
/// contract states: the engine turns the path into a C string before it
/// looks at the disk, and refuses a path that holds a NUL character.
#[verifier::external_body]
pub(crate) fn open_repository(path: &str) -> (r: Result<git2::Repository, git2::Error>)
    ensures
        path@.contains('\0') ==> r is Err,
{
    git2::Repository::open(path)
}

/// `git2::Repository::statuses`: the status flags of every path the engine
/// reports, untracked and ignored paths included as the two switches say.
/// The flags are handed out as the engine's own bits.
#[verifier::external_body]
pub(crate) fn status_entries(
    repo: &git2::Repository,
    include_untracked: bool,
    include_ignored: bool,
) -> (r: Result<Vec<ChangeStatus>, git2::Error>) {
    let mut options = git2::StatusOptions::new();
    options.include_ignored(include_ignored).include_untracked(include_untracked);
    let statuses = repo.statuses(Some(&mut options))?;
    Ok(statuses.iter().map(|entry| ChangeStatus::from_bits(entry.status().bits())).collect())
}

/// `git2::Repository::index`: the index of the repository.
#[verifier::external_body]
pub(crate) fn repository_index(repo: &git2::Repository) -> (r: Result<git2::Index, git2::Error>) {
    repo.index()
}

/// `git2::Index::add_all`: adds to the index, in memory, every path of the
/// working tree that matches `pathspec`, with the default options and
/// without a callback.
#[verifier::external_body]
pub(crate) fn index_add_all(index: &mut git2::Index, pathspec: &str) -> (r: Result<
    (),
    git2::Error,
>) {
    index.add_all([pathspec].iter(), git2::IndexAddOption::DEFAULT, None)
}

/// `git2::Index::write`: writes the index back to disk.
#[verifier::external_body]
pub(crate) fn index_write(index: &mut git2::Index) -> (r: Result<(), git2::Error>) {
    index.write()
}

/// `git2::Index::write_tree`: writes the index as a tree object and hands
/// out the id of that tree.
#[verifier::external_body]
pub(crate) fn index_write_tree(index: &mut git2::Index) -> (r: Result<git2::Oid, git2::Error>) {
    index.write_tree()
}

/// `git2::Repository::head`: the reference that HEAD resolves to.
#[verifier::external_body]
pub(crate) fn repository_head<'repo>(repo: &'repo git2::Repository) -> (r: Result<
    git2::Reference<'repo>,
    git2::Error,
>) {
    repo.head()
}

/// `git2::Reference::peel_to_tree`: the tree that the reference leads to.
#[verifier::external_body]
pub(crate) fn reference_tree<'repo>(reference: &git2::Reference<'repo>) -> (r: Result<
    git2::Tree<'repo>,
    git2::Error,
>) {
    reference.peel_to_tree()
}

/// `git2::Reference::peel_to_commit`: the commit that the reference leads to.
#[verifier::external_body]
pub(crate) fn reference_commit<'repo>(reference: &git2::Reference<'repo>) -> (r: Result<
    git2::Commit<'repo>,
    git2::Error,
>) {
    reference.peel_to_commit()
}

/// `git2::Repository::find_tree`: the tree object with the given id.
#[verifier::external_body]
pub(crate) fn find_tree<'repo>(repo: &'repo git2::Repository, id: git2::Oid) -> (r: Result<
    git2::Tree<'repo>,
    git2::Error,
>) {
    repo.find_tree(id)
}

/// `git2::Repository::diff_tree_to_tree`: the diff from `old` to `new`, with
/// the default options.
#[verifier::external_body]
pub(crate) fn diff_trees<'repo>(
    repo: &'repo git2::Repository,
    old: &git2::Tree<'repo>,
    new: &git2::Tree<'repo>,
) -> (r: Result<git2::Diff<'repo>, git2::Error>) {
    repo.diff_tree_to_tree(Some(old), Some(new), None)
}

/// `git2::Diff::print`, in patch format: the lines of the diff in the order
/// in which the engine walks them, each with its origin marker and its
/// content.
#[verifier::external_body]
pub(crate) fn diff_lines(diff: &git2::Diff<'_>) -> (r: Result<Vec<DiffLine>, git2::Error>) {
    let mut lines: Vec<DiffLine> = Vec::new();
    diff.print(
        git2::DiffFormat::Patch,
        |_delta, _hunk, line| {
            lines.push(DiffLine::new(line.origin(), line.content().to_vec()));
            true
        },
    )?;
    Ok(lines)
}

/// `git2::Repository::config`, then `get_string` on what it yields: the
/// value that the layered configuration of the repository holds under `key`.
#[verifier::external_body]
pub(crate) fn config_string(repo: &git2::Repository, key: &str) -> (r: Result<
    String,
    git2::Error,
>) {
    repo.config()?.get_string(key)
}

/// `git2::Signature::now`: a signature of `name` and `email`, stamped with
/// the current time.
#[verifier::external_body]
pub(crate) fn signature_now(name: &str, email: &str) -> (r: Result<
    git2::Signature<'static>,
    git2::Error,
>) {
    git2::Signature::now(name, email)
}

/// `git2::Repository::commit`: creates a commit with one parent and moves
/// the reference named by `update_ref` to it. Whether it succeeds is up to
/// the engine, with one exception that the contract states: the engine
/// turns the reference name and the message into C strings before it
/// creates anything, and refuses either if it holds a NUL character.
#[verifier::external_body]
pub(crate) fn create_commit<'repo>(
    repo: &'repo git2::Repository,
    update_ref: &str,
    author: &git2::Signature<'_>,
    committer: &git2::Signature<'_>,
    message: &str,
    tree: &git2::Tree<'repo>,
    parent: &git2::Commit<'repo>,
) -> (r: Result<git2::Oid, git2::Error>)
    ensures
        update_ref@.contains('\0') || message@.contains('\0') ==> r is Err,
{
    repo.commit(Some(update_ref), author, committer, message, tree, &[parent])
}

} // verus!
