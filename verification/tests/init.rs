use hpm::errors::{ErrorKind, ExtractError, FetchError, ManifestError};
use hpm::init::{init_hypl, InitPlan, Notice};

#[test]
fn init_plans_directory_and_fresh_manifest() {
    let plan = init_hypl(Some("demo".to_string()));
    assert_eq!(
        plan,
        Ok(InitPlan {
            modules_dir: "__modules__".to_string(),
            folder_notice: Notice {
                kind: ErrorKind::DirExists,
                text: "An error accured while creating the folder demo".to_string(),
            },
            manifest_path: "__info__.json".to_string(),
            manifest_text: "{\n  \"modules\": [],\n  \"name\": \"demo\"\n}".to_string(),
        })
    );
}

#[test]
fn init_is_the_same_every_time() {
    assert_eq!(init_hypl(Some("demo".to_string())), init_hypl(Some("demo".to_string())));
}

#[test]
fn init_of_a_project_without_a_name() {
    let plan = init_hypl(Some(String::new())).unwrap();
    assert_eq!(plan.manifest_text, "{\n  \"modules\": [],\n  \"name\": \"\"\n}");
}

#[test]
fn init_without_a_working_directory_fails() {
    assert_eq!(init_hypl(None), Err(ManifestError::NoCwd));
}

#[test]
fn manifest_errors_have_their_kinds() {
    assert_eq!(ManifestError::NoCwd.kind(), ErrorKind::NoCwd);
    assert_eq!(ManifestError::NotFound.kind(), ErrorKind::ManifestNotFound);
    assert_eq!(ManifestError::Malformed.kind(), ErrorKind::ManifestMalformed);
}

#[test]
fn extract_errors_have_their_kinds() {
    assert_eq!(ExtractError::Open.kind(), ErrorKind::ArchiveOpenFailure);
    assert_eq!(ExtractError::Entry { index: 2 }.kind(), ErrorKind::ArchiveEntryFailure);
    assert_eq!(ExtractError::Traversal { index: 0 }.kind(), ErrorKind::ArchiveEntryFailure);
    assert_eq!(ExtractError::Io.kind(), ErrorKind::FileIoFailure);
}

#[test]
fn fetch_errors_have_their_kinds() {
    assert_eq!(FetchError::Network.kind(), ErrorKind::NetworkFailure);
    assert_eq!(FetchError::Status { code: 404 }.kind(), ErrorKind::HttpStatusFailure);
    assert_eq!(FetchError::Io.kind(), ErrorKind::FileIoFailure);
}

#[test]
fn only_an_existing_directory_is_not_fatal() {
    assert!(!ErrorKind::DirExists.is_fatal());
    for kind in [
        ErrorKind::NoCwd,
        ErrorKind::NetworkFailure,
        ErrorKind::HttpStatusFailure,
        ErrorKind::FileIoFailure,
        ErrorKind::ArchiveOpenFailure,
        ErrorKind::ArchiveEntryFailure,
        ErrorKind::ManifestNotFound,
        ErrorKind::ManifestMalformed,
    ] {
        assert!(kind.is_fatal());
    }
    assert!(!init_hypl(Some("p".to_string())).unwrap().folder_notice.kind.is_fatal());
}
