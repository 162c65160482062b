//! The repository manager: inspection and mutation of one repository's
//! staging area and history tip.
//!
//! Every operation asks the engine, and the engine answers from what is on
//! disk. The contracts therefore say what holds whatever the engine answers:
//! which step a failure names, and what is made of a success. What is made of
//! each answer is the work of [`GitError::at`], [`any_staged`],
//! [`render_patch`] and [`resolve_identity`], which say it exactly.

use vstd::prelude::*;
use crate::diff::{render_patch, spec_patch_text, DiffLine};
use crate::engine;
use crate::error::{ErrorKind, GitError, GitStep};
use crate::identity::{resolve_identity, Identity};
use crate::status::any_staged;

verus! {

/// An exclusive handle onto one repository on disk.
pub struct GitManager {
    repo: git2::Repository,
}

impl GitManager {
    /// Opens the repository at `path`.
    ///
    /// A path that holds a NUL character is never opened. For any other
    /// path, whether a repository is found is up to the engine. A failure is
    /// reported as a failure to open.
    pub fn new(path: &str) -> (r: Result<GitManager, GitError>)
        ensures
            path@.contains('\0') ==> r is Err,
            r matches Err(e) ==> e.step == GitStep::OpenRepository,
    {
        match GitError::at(GitStep::OpenRepository, engine::open_repository(path)) {
            Ok(repo) => Ok(GitManager { repo }),
            Err(e) => Err(e),
        }
    }

    /// Whether any tracked path is staged: new, modified, deleted, renamed
    /// or changed in type in the index, relative to the last commit.
    /// Untracked and ignored paths are left out of the query.
    ///
    /// The answer is [`any_staged`] of the status entries that the engine
    /// reports; the only failure is that of the status query.
    pub fn has_staged_changes(&self) -> (r: Result<bool, GitError>)
        ensures
            r matches Err(e) ==> e.step == GitStep::Status,
    {
        match GitError::at(GitStep::Status, engine::status_entries(&self.repo, false, false)) {
            Ok(entries) => Ok(any_staged(&entries)),
            Err(e) => Err(e),
        }
    }

    /// Stages every change of the working tree: adds all paths that match
    /// `*` to the index and writes the index to disk.
    ///
    /// The handle itself is left as it is; what changes is the index on
    /// disk. A failure names the step that failed; all of them are staging
    /// failures.
    pub fn stage_all_changes(&mut self) -> (r: Result<(), GitError>)
        ensures
            *final(self) == *old(self),
            r matches Err(e) ==> (e.step == GitStep::StageIndex || e.step == GitStep::StageAdd
                || e.step == GitStep::StageWrite) && e.step.spec_kind() == ErrorKind::Staging,
    {
        let mut index = match GitError::at(
            GitStep::StageIndex,
            engine::repository_index(&self.repo),
        ) {
            Ok(index) => index,
            Err(e) => {
                return Err(e);
            },
        };
        match GitError::at(GitStep::StageAdd, engine::index_add_all(&mut index, "*")) {
            Ok(()) => {},
            Err(e) => {
                return Err(e);
            },
        }
        GitError::at(GitStep::StageWrite, engine::index_write(&mut index))
    }

    /// The lines of the diff between the tree of HEAD and the tree of the
    /// index, as the engine walks them.
    fn staged_lines(&self) -> (r: Result<Vec<DiffLine>, GitError>)
        ensures
            r matches Err(e) ==> e.step.spec_kind() == ErrorKind::Diff,
    {
        let head = match GitError::at(GitStep::DiffHead, engine::repository_head(&self.repo)) {
            Ok(head) => head,
            Err(e) => {
                return Err(e);
            },
        };
        let head_tree = match GitError::at(GitStep::DiffHeadTree, engine::reference_tree(&head)) {
            Ok(tree) => tree,
            Err(e) => {
                return Err(e);
            },
        };
        let mut index = match GitError::at(
            GitStep::DiffIndex,
            engine::repository_index(&self.repo),
        ) {
            Ok(index) => index,
            Err(e) => {
                return Err(e);
            },
        };
        let tree_id = match GitError::at(
            GitStep::DiffWriteTree,
            engine::index_write_tree(&mut index),
        ) {
            Ok(id) => id,
            Err(e) => {
                return Err(e);
            },
        };
        let index_tree = match GitError::at(
            GitStep::DiffIndexTree,
            engine::find_tree(&self.repo, tree_id),
        ) {
            Ok(tree) => tree,
            Err(e) => {
                return Err(e);
            },
        };
        let diff = match GitError::at(
            GitStep::DiffCompute,
            engine::diff_trees(&self.repo, &head_tree, &index_tree),
        ) {
            Ok(diff) => diff,
            Err(e) => {
                return Err(e);
            },
        };
        GitError::at(GitStep::DiffPrint, engine::diff_lines(&diff))
    }

    /// The staged changes as patch text: the diff between the tree of HEAD
    /// and the tree of the index, rendered by [`render_patch`].
    ///
    /// The text is the rendering of the lines that the engine walked, in
    /// their order; a failure is a diff failure.
    pub fn get_staged_diff(&self) -> (r: Result<String, GitError>)
        ensures
            r matches Ok(text) ==> exists|lines: Seq<DiffLine>| text@ == spec_patch_text(lines),
            r matches Err(e) ==> e.step.spec_kind() == ErrorKind::Diff,
    {
        match self.staged_lines() {
            Ok(lines) => Ok(render_patch(&lines)),
            Err(e) => Err(e),
        }
    }

    /// The identity that a commit made now would carry: the one configured
    /// under `user.name` and `user.email` where both are set and non-empty,
    /// the fallback identity otherwise. The configuration is read afresh on
    /// every call.
    pub fn identity(&self) -> (id: Identity)
        ensures
            id.spec_is_complete(),
    {
        let name = match engine::config_string(&self.repo, "user.name") {
            Ok(value) => Some(value),
            Err(_) => None,
        };
        let email = match engine::config_string(&self.repo, "user.email") {
            Ok(value) => Some(value),
            Err(_) => None,
        };
        resolve_identity(name, email)
    }

    /// The signature of [`GitManager::identity`], stamped with the current
    /// time. The only failure is that of building the signature.
    fn get_signature(&self) -> (r: Result<git2::Signature<'static>, GitError>)
        ensures
            r matches Err(e) ==> e.step == GitStep::CommitSignature,
    {
        let identity = self.identity();
        GitError::at(
            GitStep::CommitSignature,
            engine::signature_now(identity.name.as_str(), identity.email.as_str()),
        )
    }

    /// Commits the index with `message`, taken verbatim: writes the index
    /// as a tree and creates a commit of that tree whose only parent is the
    /// commit of HEAD, with the resolved identity as author and committer,
    /// and moves HEAD to it.
    ///
    /// A message that holds a NUL character is never committed. For any
    /// other message, whether the commit is made is up to the engine. A
    /// failure names the step that failed; all of them are commit failures.
    pub fn commit(&self, message: &str) -> (r: Result<(), GitError>)
        ensures
            message@.contains('\0') ==> r is Err,
            r matches Err(e) ==> e.step.spec_kind() == ErrorKind::Commit,
    {
        let signature = match self.get_signature() {
            Ok(signature) => signature,
            Err(e) => {
                return Err(e);
            },
        };
        let mut index = match GitError::at(
            GitStep::CommitIndex,
            engine::repository_index(&self.repo),
        ) {
            Ok(index) => index,
            Err(e) => {
                return Err(e);
            },
        };
        let tree_id = match GitError::at(
            GitStep::CommitWriteTree,
            engine::index_write_tree(&mut index),
        ) {
            Ok(id) => id,
            Err(e) => {
                return Err(e);
            },
        };
        let tree = match GitError::at(GitStep::CommitTree, engine::find_tree(&self.repo, tree_id)) {
            Ok(tree) => tree,
            Err(e) => {
                return Err(e);
            },
        };
        let head = match GitError::at(GitStep::CommitHead, engine::repository_head(&self.repo)) {
            Ok(head) => head,
            Err(e) => {
                return Err(e);
            },
        };
        let parent = match GitError::at(GitStep::CommitParent, engine::reference_commit(&head)) {
            Ok(commit) => commit,
            Err(e) => {
                return Err(e);
            },
        };
        match GitError::at(
            GitStep::CommitCreate,
            engine::create_commit(
                &self.repo,
                "HEAD",
                &signature,
                &signature,
                message,
                &tree,
                &parent,
            ),
        ) {
            Ok(_) => Ok(()),
            Err(e) => Err(e),
        }
    }
}

} // verus!
