//! Failures of repository operations.

use vstd::prelude::*;

verus! {

/// The broad kinds of failure a run can end with.
#[derive(Clone, Copy, Debug, PartialEq, Eq, Structural)]
pub enum ErrorKind {
    /// The credential is missing or blank.
    Configuration,
    /// The path does not lead to a readable repository.
    RepositoryOpen,
    /// The status of the working tree could not be computed.
    StatusQuery,
    /// The index could not be updated or written.
    Staging,
    /// Nothing is staged and nothing may or can be staged.
    Policy,
    /// HEAD is missing, or a tree or the diff could not be computed.
    Diff,
    /// The staged diff holds no text.
    EmptyDiff,
    /// The message generation service failed.
    Generation,
    /// The parent commit is missing, or the tree or commit could not be written.
    Commit,
}

/// The single engine call at which a repository operation failed.
#[derive(Clone, Copy, Debug, PartialEq, Eq, Structural)]
pub enum GitStep {
    /// Opening the repository.
    OpenRepository,
    /// Listing the status entries.
    Status,
    /// Loading the index before staging.
    StageIndex,
    /// Adding the working tree to the index.
    StageAdd,
    /// Persisting the index.
    StageWrite,
    /// Resolving HEAD before diffing.
    DiffHead,
    /// Peeling HEAD to its tree.
    DiffHeadTree,
    /// Loading the index before diffing.
    DiffIndex,
    /// Writing the index as a tree before diffing.
    DiffWriteTree,
    /// Looking up the tree written from the index before diffing.
    DiffIndexTree,
    /// Computing the tree-to-tree diff.
    DiffCompute,
    /// Walking the lines of the diff.
    DiffPrint,
    /// Building the author and committer signature.
    CommitSignature,
    /// Loading the index before committing.
    CommitIndex,
    /// Writing the index as a tree before committing.
    CommitWriteTree,
    /// Looking up the tree written from the index before committing.
    CommitTree,
    /// Resolving HEAD before committing.
    CommitHead,
    /// Peeling HEAD to the parent commit.
    CommitParent,
    /// Creating the commit object and moving HEAD.
    CommitCreate,
}

impl GitStep {
    /// The kind of failure that a failure at this step amounts to.
    pub open spec fn spec_kind(self) -> ErrorKind {
        match self {
            GitStep::OpenRepository => ErrorKind::RepositoryOpen,
            GitStep::Status => ErrorKind::StatusQuery,
            GitStep::StageIndex | GitStep::StageAdd | GitStep::StageWrite => ErrorKind::Staging,
            GitStep::DiffHead
            | GitStep::DiffHeadTree
            | GitStep::DiffIndex
            | GitStep::DiffWriteTree
            | GitStep::DiffIndexTree
            | GitStep::DiffCompute
            | GitStep::DiffPrint => ErrorKind::Diff,
            GitStep::CommitSignature
            | GitStep::CommitIndex
            | GitStep::CommitWriteTree
            | GitStep::CommitTree
            | GitStep::CommitHead
            | GitStep::CommitParent
            | GitStep::CommitCreate => ErrorKind::Commit,
        }
    }

    /// The kind of failure that a failure at this step amounts to.
    pub fn kind(&self) -> (k: ErrorKind)
        ensures
            k == self.spec_kind(),
    {
        match self {
            GitStep::OpenRepository => ErrorKind::RepositoryOpen,
            GitStep::Status => ErrorKind::StatusQuery,
            GitStep::StageIndex | GitStep::StageAdd | GitStep::StageWrite => ErrorKind::Staging,
            GitStep::DiffHead
            | GitStep::DiffHeadTree
            | GitStep::DiffIndex
            | GitStep::DiffWriteTree
            | GitStep::DiffIndexTree
            | GitStep::DiffCompute
            | GitStep::DiffPrint => ErrorKind::Diff,
            GitStep::CommitSignature
            | GitStep::CommitIndex
            | GitStep::CommitWriteTree
            | GitStep::CommitTree
            | GitStep::CommitHead
            | GitStep::CommitParent
            | GitStep::CommitCreate => ErrorKind::Commit,
        }
    }

    /// The text that tells the user what failed at this step.
    pub open spec fn spec_context(self) -> Seq<char> {
        match self {
            GitStep::OpenRepository => "Failed to open git repository. Make sure you're in a git repository."@,
            GitStep::Status => "Failed to get git status"@,
            GitStep::StageIndex | GitStep::DiffIndex | GitStep::CommitIndex => "Failed to get repository index"@,
            GitStep::StageAdd => "Failed to stage all changes"@,
            GitStep::StageWrite => "Failed to write index after staging"@,
            GitStep::DiffHead | GitStep::CommitHead => "Failed to get HEAD reference"@,
            GitStep::DiffHeadTree => "Failed to get HEAD tree"@,
            GitStep::DiffWriteTree | GitStep::CommitWriteTree => "Failed to write tree from index"@,
            GitStep::DiffIndexTree => "Failed to get index tree"@,
            GitStep::DiffCompute => "Failed to create diff between HEAD and index"@,
            GitStep::DiffPrint => "Failed to generate diff output"@,
            GitStep::CommitSignature => "Failed to create git signature"@,
            GitStep::CommitTree => "Failed to find tree object"@,
            GitStep::CommitParent => "Failed to get parent commit"@,
            GitStep::CommitCreate => "Failed to create commit"@,
        }
    }

    /// The text that tells the user what failed at this step.
    pub fn context(&self) -> (s: &'static str)
        ensures
            s@ == self.spec_context(),
    {
        match self {
            GitStep::OpenRepository => "Failed to open git repository. Make sure you're in a git repository.",
            GitStep::Status => "Failed to get git status",
            GitStep::StageIndex | GitStep::DiffIndex | GitStep::CommitIndex => "Failed to get repository index",
            GitStep::StageAdd => "Failed to stage all changes",
            GitStep::StageWrite => "Failed to write index after staging",
            GitStep::DiffHead | GitStep::CommitHead => "Failed to get HEAD reference",
            GitStep::DiffHeadTree => "Failed to get HEAD tree",
            GitStep::DiffWriteTree | GitStep::CommitWriteTree => "Failed to write tree from index",
            GitStep::DiffIndexTree => "Failed to get index tree",
            GitStep::DiffCompute => "Failed to create diff between HEAD and index",
            GitStep::DiffPrint => "Failed to generate diff output",
            GitStep::CommitSignature => "Failed to create git signature",
            GitStep::CommitTree => "Failed to find tree object",
            GitStep::CommitParent => "Failed to get parent commit",
            GitStep::CommitCreate => "Failed to create commit",
        }
    }
}

/// A failed repository operation: the step that failed and what the engine
/// reported for it.
#[derive(Debug)]
pub struct GitError {
    /// The step that failed.
    pub step: GitStep,
    /// The engine's own report.
    pub source: git2::Error,
}

impl GitError {
    /// Records that `step` failed with `source`.
    pub fn new(step: GitStep, source: git2::Error) -> (e: GitError)
        ensures
            e.step == step,
            e.source == source,
    {
        GitError { step, source }
    }

    /// What an engine call made at `step` comes to, given its `outcome`: the
    /// value it yielded, or the failure of `step` with the engine's report.
    pub fn at<T>(step: GitStep, outcome: Result<T, git2::Error>) -> (r: Result<T, GitError>)
        ensures
            match outcome {
                Ok(value) => r == Ok::<T, GitError>(value),
                Err(source) => r == Err::<T, GitError>((GitError { step, source })),
            },
    {
        match outcome {
            Ok(value) => Ok(value),
            Err(source) => Err(GitError { step, source }),
        }
    }

    /// The kind of failure this error amounts to.
    pub fn kind(&self) -> (k: ErrorKind)
        ensures
            k == self.step.spec_kind(),
    {
        self.step.kind()
    }

    /// The text that tells the user what failed.
    pub fn message(&self) -> (s: String)
        ensures
            s@ == self.step.spec_context(),
    {
        self.step.context().to_owned()
    }
}

} // verus!
