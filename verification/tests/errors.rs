use joat_repo::{Deletion, RepoError, RepoErrorKind, SharedPath};

#[test]
fn each_error_has_its_kind_and_message() {
    let e = RepoError::could_not_open_lock_file("/l");
    assert_eq!(RepoErrorKind::CouldNotOpenLockFile, e.kind());
    assert_eq!("Could not open lock file /l", e.message());

    let e = RepoError::could_not_lock("/l");
    assert_eq!(RepoErrorKind::CouldNotLock, e.kind());
    assert_eq!("Could not lock lock file /l", e.message());

    let e = RepoError::invalid_shared_path(&SharedPath::new("../x"));
    assert_eq!(RepoErrorKind::InvalidSharedPath, e.kind());
    assert_eq!("Invalid shared path ../x", e.message());

    let e = RepoError::could_not_compute_hash("rel");
    assert_eq!(RepoErrorKind::CouldNotComputeHash, e.kind());
    assert_eq!("Could not compute MD5 hash for path rel", e.message());

    let e = RepoError::could_not_delete_directory("/d");
    assert_eq!(RepoErrorKind::CouldNotDeleteDirectory, e.kind());
    assert_eq!("Could not delete directory /d", e.message());

    let e = RepoError::could_not_delete_file("/f");
    assert_eq!(RepoErrorKind::CouldNotDeleteFile, e.kind());
    assert_eq!("Could not delete file /f", e.message());

    let e = RepoError::invalid_link_file("/links/x.yaml", "/found", "/expected");
    assert_eq!(RepoErrorKind::InvalidLinkFile, e.kind());
    assert_eq!(
        "Project directory /found specified in link file /links/x.yaml does not match expected directory /expected",
        e.message()
    );

    let e = RepoError::invalid_meta_id("zz");
    assert_eq!(RepoErrorKind::InvalidMetaId, e.kind());
    assert_eq!("Invalid meta ID zz", e.message());

    let e = RepoError::invalid_link_id("zz");
    assert_eq!(RepoErrorKind::InvalidLinkId, e.kind());
    assert_eq!("Invalid link ID zz", e.message());

    let e = RepoError::other("boom", false);
    assert_eq!(RepoErrorKind::Other, e.kind());
    assert_eq!("boom", e.message());
}

#[test]
fn exactly_one_predicate_holds_of_each_error() {
    let errors = vec![
        RepoError::could_not_open_lock_file("p"),
        RepoError::could_not_lock("p"),
        RepoError::invalid_shared_path(&SharedPath::new("p")),
        RepoError::could_not_compute_hash("p"),
        RepoError::could_not_delete_directory("p"),
        RepoError::could_not_delete_file("p"),
        RepoError::invalid_link_file("p", "q", "r"),
        RepoError::invalid_meta_id("p"),
        RepoError::invalid_link_id("p"),
        RepoError::other("p", true),
    ];
    for (i, e) in errors.iter().enumerate() {
        let flags = [
            e.is_could_not_open_lock_file(),
            e.is_could_not_lock(),
            e.is_invalid_shared_path(),
            e.is_could_not_compute_hash(),
            e.is_could_not_delete_directory(),
            e.is_could_not_delete_file(),
            e.is_invalid_link_file(),
            e.is_invalid_meta_id(),
            e.is_invalid_link_id(),
            e.is_other(),
        ];
        for (j, flag) in flags.iter().enumerate() {
            assert_eq!(i == j, *flag);
        }
    }
}

#[test]
fn not_found_is_told_apart() {
    assert!(RepoError::other("gone", true).is_not_found());
    assert!(!RepoError::other("broken", false).is_not_found());
    assert!(!RepoError::could_not_delete_file("x").is_not_found());
}

#[test]
fn shared_path_keeps_its_text() {
    let p = SharedPath::new("a/../b");
    assert_eq!("a/../b", p.as_str());
    assert_eq!(p, p.clone());
}

#[test]
fn a_deletion_names_its_failure() {
    let d = Deletion::File(String::from("/f"));
    assert_eq!("/f", d.path());
    assert!(d.failure().is_could_not_delete_file());
    assert_eq!("Could not delete file /f", d.failure().message());
    let d = Deletion::Directory(String::from("/d"));
    assert_eq!("/d", d.path());
    assert!(d.failure().is_could_not_delete_directory());
    assert_eq!("Could not delete directory /d", d.failure().message());
}
