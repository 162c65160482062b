//! The change status of a path, and the test for staged changes.

use vstd::prelude::*;

verus! {

/// The path is new in the index.
pub const INDEX_NEW: u32 = 0x0001;

/// The path is modified in the index.
pub const INDEX_MODIFIED: u32 = 0x0002;

/// The path is deleted from the index.
pub const INDEX_DELETED: u32 = 0x0004;

/// The path is renamed in the index.
pub const INDEX_RENAMED: u32 = 0x0008;

/// The type of the path changed in the index.
pub const INDEX_TYPECHANGE: u32 = 0x0010;

/// The path is new in the working tree.
pub const WT_NEW: u32 = 0x0080;

/// The path is modified in the working tree.
pub const WT_MODIFIED: u32 = 0x0100;

/// The path is deleted from the working tree.
pub const WT_DELETED: u32 = 0x0200;

/// The type of the path changed in the working tree.
pub const WT_TYPECHANGE: u32 = 0x0400;

/// The path is renamed in the working tree.
pub const WT_RENAMED: u32 = 0x0800;

/// Every flag that compares the index with the last commit.
pub const STAGED: u32 = 0x001F;

/// Every flag that compares the working tree with the index.
pub const UNSTAGED: u32 = 0x0F80;

/// The status flags of one path, in the engine's own bit layout.
#[derive(Clone, Copy, Debug, PartialEq, Eq, Structural)]
pub struct ChangeStatus {
    /// The flags, one bit each.
    pub bits: u32,
}

impl ChangeStatus {
    /// Whether any of the flags in `mask` is set.
    pub open spec fn spec_intersects(self, mask: u32) -> bool {
        self.bits & mask != 0
    }

    /// Whether the path differs between the index and the last commit.
    pub open spec fn spec_is_staged(self) -> bool {
        self.spec_intersects(STAGED)
    }

    /// The status with exactly the flags in `bits`.
    pub fn from_bits(bits: u32) -> (status: ChangeStatus)
        ensures
            status.bits == bits,
    {
        ChangeStatus { bits }
    }

    /// Whether any of the flags in `mask` is set.
    pub fn intersects(&self, mask: u32) -> (b: bool)
        ensures
            b == self.spec_intersects(mask),
    {
        self.bits & mask != 0
    }

    /// Whether the path differs between the index and the last commit: it is
    /// new, modified, deleted, renamed or changed in type there.
    pub fn is_staged(&self) -> (b: bool)
        ensures
            b == self.spec_is_staged(),
            b == (self.spec_intersects(INDEX_NEW) || self.spec_intersects(INDEX_MODIFIED)
                || self.spec_intersects(INDEX_DELETED) || self.spec_intersects(INDEX_RENAMED)
                || self.spec_intersects(INDEX_TYPECHANGE)),
    {
        proof {
            lemma_staged_flags(self.bits);
        }
        self.intersects(STAGED)
    }
}

/// Whether any of `entries` is staged.
pub open spec fn spec_any_staged(entries: Seq<ChangeStatus>) -> bool {
    exists|i: int| 0 <= i < entries.len() && (#[trigger] entries[i]).spec_is_staged()
}

/// Whether any of `entries` is staged.
pub fn any_staged(entries: &Vec<ChangeStatus>) -> (b: bool)
    ensures
        b == spec_any_staged(entries@),
{
    let mut i: usize = 0;
    while i < entries.len()
        invariant
            i <= entries.len(),
            forall|j: int| 0 <= j < i ==> !(#[trigger] entries@[j]).spec_is_staged(),
        decreases entries.len() - i,
    {
        if entries[i].is_staged() {
            return true;
        }
        i += 1;
    }
    false
}

/// The staged mask is the union of the five index flags: a status meets it
/// exactly when it has one of them.
pub proof fn lemma_staged_flags(bits: u32)
    ensures
        (bits & STAGED != 0) == (bits & INDEX_NEW != 0 || bits & INDEX_MODIFIED != 0 || bits
            & INDEX_DELETED != 0 || bits & INDEX_RENAMED != 0 || bits & INDEX_TYPECHANGE != 0),
{
    assert((bits & 0x1Fu32 != 0) == (bits & 0x01u32 != 0 || bits & 0x02u32 != 0 || bits & 0x04u32
        != 0 || bits & 0x08u32 != 0 || bits & 0x10u32 != 0)) by (bit_vector);
}

/// Staged and unstaged flags are kept apart: a status made of working tree
/// flags only is not staged.
pub proof fn lemma_unstaged_only_is_not_staged(status: ChangeStatus)
    requires
        status.bits & UNSTAGED == status.bits,
    ensures
        !status.spec_is_staged(),
{
    let bits = status.bits;
    assert(bits & 0x0F80u32 == bits ==> bits & 0x1Fu32 == 0) by (bit_vector);
}

/// Nothing is staged where no entry is: an empty status list, or one whose
/// entries all lack the index flags, has no staged change.
pub proof fn lemma_none_staged(entries: Seq<ChangeStatus>)
    requires
        forall|i: int| 0 <= i < entries.len() ==> (#[trigger] entries[i]).bits & STAGED == 0,
    ensures
        !spec_any_staged(entries),
{
}

/// One staged entry is enough, wherever it stands.
pub proof fn lemma_one_staged(entries: Seq<ChangeStatus>, i: int)
    requires
        0 <= i < entries.len(),
        entries[i].spec_is_staged(),
    ensures
        spec_any_staged(entries),
{
}

} // verus!
