use distill::status::{
    any_staged, ChangeStatus, INDEX_DELETED, INDEX_MODIFIED, INDEX_NEW, INDEX_RENAMED,
    INDEX_TYPECHANGE, STAGED, UNSTAGED, WT_DELETED, WT_MODIFIED, WT_NEW, WT_RENAMED,
    WT_TYPECHANGE,
};

#[test]
fn flags_have_the_engine_layout() {
    assert_eq!(INDEX_NEW, git2::Status::INDEX_NEW.bits());
    assert_eq!(INDEX_MODIFIED, git2::Status::INDEX_MODIFIED.bits());
    assert_eq!(INDEX_DELETED, git2::Status::INDEX_DELETED.bits());
    assert_eq!(INDEX_RENAMED, git2::Status::INDEX_RENAMED.bits());
    assert_eq!(INDEX_TYPECHANGE, git2::Status::INDEX_TYPECHANGE.bits());
    assert_eq!(WT_NEW, git2::Status::WT_NEW.bits());
    assert_eq!(WT_MODIFIED, git2::Status::WT_MODIFIED.bits());
    assert_eq!(WT_DELETED, git2::Status::WT_DELETED.bits());
    assert_eq!(WT_TYPECHANGE, git2::Status::WT_TYPECHANGE.bits());
    assert_eq!(WT_RENAMED, git2::Status::WT_RENAMED.bits());
}

#[test]
fn masks_are_the_unions_of_their_flags() {
    assert_eq!(
        STAGED,
        INDEX_NEW | INDEX_MODIFIED | INDEX_DELETED | INDEX_RENAMED | INDEX_TYPECHANGE
    );
    assert_eq!(UNSTAGED, WT_NEW | WT_MODIFIED | WT_DELETED | WT_TYPECHANGE | WT_RENAMED);
    assert_eq!(STAGED & UNSTAGED, 0);
}

#[test]
fn each_index_flag_is_staged() {
    for flag in [INDEX_NEW, INDEX_MODIFIED, INDEX_DELETED, INDEX_RENAMED, INDEX_TYPECHANGE] {
        assert!(ChangeStatus::from_bits(flag).is_staged(), "flag {:#x}", flag);
        assert!(ChangeStatus::from_bits(flag | WT_MODIFIED).is_staged(), "flag {:#x}", flag);
    }
}

#[test]
fn working_tree_flags_are_not_staged() {
    for flag in [WT_NEW, WT_MODIFIED, WT_DELETED, WT_TYPECHANGE, WT_RENAMED] {
        assert!(!ChangeStatus::from_bits(flag).is_staged(), "flag {:#x}", flag);
    }
    assert!(!ChangeStatus::from_bits(UNSTAGED).is_staged());
    assert!(!ChangeStatus::from_bits(0).is_staged());
    assert!(!ChangeStatus::from_bits(git2::Status::IGNORED.bits()).is_staged());
    assert!(!ChangeStatus::from_bits(git2::Status::CONFLICTED.bits()).is_staged());
}

#[test]
fn intersects_tests_the_mask() {
    let status = ChangeStatus::from_bits(INDEX_RENAMED | WT_DELETED);
    assert_eq!(status.bits, 0x0208);
    assert!(status.intersects(INDEX_RENAMED));
    assert!(status.intersects(WT_DELETED | WT_NEW));
    assert!(!status.intersects(INDEX_NEW | INDEX_MODIFIED));
    assert!(!status.intersects(0));
}

#[test]
fn any_staged_of_nothing_is_false() {
    assert_eq!(any_staged(&Vec::new()), false);
}

#[test]
fn any_staged_finds_a_staged_entry_anywhere() {
    let wt = ChangeStatus::from_bits(WT_MODIFIED);
    let staged = ChangeStatus::from_bits(INDEX_MODIFIED);
    assert_eq!(any_staged(&vec![wt, wt, wt]), false);
    assert_eq!(any_staged(&vec![staged, wt, wt]), true);
    assert_eq!(any_staged(&vec![wt, staged, wt]), true);
    assert_eq!(any_staged(&vec![wt, wt, staged]), true);
    assert_eq!(any_staged(&vec![ChangeStatus::from_bits(INDEX_TYPECHANGE | WT_NEW)]), true);
}
