use hpm::errors::{ErrorKind, FetchError};
use hpm::install::{
    check_response, install_package, Action, Event, Install, InstallError, Operation, Outcome,
};

fn response(status: u16, status_text: &str, body: &[u8]) -> Event {
    Event::Response { status, status_text: status_text.to_string(), body: body.to_vec() }
}

fn failed(kind: ErrorKind, cause: &str) -> Event {
    Event::Failed { kind, cause: cause.to_string() }
}

fn extracting(package: &str) -> Install {
    install_package(package.to_string()).advance(response(200, "200 OK", b"zip")).advance(Event::Done)
}

fn failure_of(install: &Install) -> &InstallError {
    install.outcome().unwrap().failure.as_ref().unwrap()
}

#[test]
fn installation_starts_with_the_fetch() {
    let install = install_package("demo".to_string());
    assert_eq!(install.package(), "demo");
    assert_eq!(
        install.action(),
        &Action::Fetch {
            url: "https://mrmineev.github.io/articles/hpm/packages/demo/demo.zip".to_string()
        }
    );
    assert_eq!(install.outcome(), None);
}

#[test]
fn successful_installation_takes_every_step_in_order() {
    let install = install_package("demo".to_string());
    let install = install.advance(response(200, "200 OK", b"archive bytes"));
    assert_eq!(
        install.action(),
        &Action::WriteArchive {
            path: "__modules__/demo.zip".to_string(),
            body: b"archive bytes".to_vec()
        }
    );
    let install = install.advance(Event::Done);
    assert_eq!(
        install.action(),
        &Action::Extract {
            archive: "__modules__/demo.zip".to_string(),
            output_dir: "__modules__".to_string()
        }
    );
    let install = install.advance(Event::Done);
    assert_eq!(install.action(), &Action::DeleteArchive { path: "__modules__/demo.zip".to_string() });
    let install = install.advance(Event::Done);
    assert_eq!(
        install.action(),
        &Action::UpdateManifest { path: "__info__.json".to_string(), module: "demo".to_string() }
    );
    let install = install.advance(Event::Done);
    assert_eq!(
        install.action(),
        &Action::Finish { outcome: Outcome { failure: None, unregistered: false } }
    );
    assert!(install.outcome().unwrap().is_success());
    assert_eq!(install.outcome().unwrap().warning(), None);
    assert_eq!(install.into_outcome(), Some(Outcome { failure: None, unregistered: false }));
}

#[test]
fn unfinished_installation_has_no_outcome() {
    assert_eq!(install_package("demo".to_string()).into_outcome(), None);
    assert_eq!(extracting("demo").into_outcome(), None);
}

#[test]
fn failed_status_ends_before_anything_is_written() {
    let install = install_package("demo".to_string());
    let install = install.advance(response(404, "404 Not Found", b"<html>missing</html>"));
    let expected = Outcome {
        failure: Some(InstallError {
            kind: ErrorKind::HttpStatusFailure,
            operation: Operation::Fetch,
            package: "demo".to_string(),
            cause: "Request failed with status code: 404 Not Found".to_string(),
        }),
        unregistered: false,
    };
    assert_eq!(install.outcome(), Some(&expected));
    let install = install.advance(Event::Done).advance(response(200, "200 OK", b"late"));
    assert_eq!(install.outcome(), Some(&expected));
}

#[test]
fn statuses_outside_the_successful_range_fail() {
    for status in [0u16, 100, 199, 300, 301, 404, 500, 65535] {
        let install = install_package("p".to_string()).advance(response(status, "s", b""));
        assert_eq!(failure_of(&install).kind, ErrorKind::HttpStatusFailure);
        assert_eq!(check_response(status), Err(FetchError::Status { code: status }));
    }
    for status in [200u16, 201, 204, 299] {
        let install = install_package("p".to_string()).advance(response(status, "s", b""));
        assert!(matches!(install.action(), Action::WriteArchive { .. }));
        assert_eq!(check_response(status), Ok(()));
    }
}

#[test]
fn missing_response_ends_the_installation() {
    let install = install_package("demo".to_string());
    let install = install.advance(failed(ErrorKind::NetworkFailure, "connection refused"));
    let failure = failure_of(&install);
    assert_eq!(failure.kind, ErrorKind::NetworkFailure);
    assert_eq!(failure.operation, Operation::Fetch);
    assert_eq!(failure.cause, "Error occurred: connection refused");
    assert_eq!(failure.diagnostic(), "demo: fetch: Error occurred: connection refused");
    assert!(!install.outcome().unwrap().unregistered);
}

#[test]
fn failed_write_removes_the_archive_and_ends() {
    let install = install_package("demo".to_string()).advance(response(200, "200 OK", b"zip"));
    let install = install.advance(failed(ErrorKind::FileIoFailure, "Failed to write to file"));
    assert_eq!(install.action(), &Action::DeleteArchive { path: "__modules__/demo.zip".to_string() });
    let install = install.advance(failed(ErrorKind::FileIoFailure, "no such file"));
    let failure = failure_of(&install);
    assert_eq!(failure.operation, Operation::WriteArchive);
    assert_eq!(failure.cause, "Failed to write to file");
    assert_eq!(install.outcome().unwrap().warning(), None);
}

#[test]
fn archive_is_deleted_after_a_failed_extraction() {
    let install = extracting("demo");
    let install = install.advance(failed(ErrorKind::ArchiveOpenFailure, "not an archive"));
    assert_eq!(install.action(), &Action::DeleteArchive { path: "__modules__/demo.zip".to_string() });
    let install = install.advance(Event::Done);
    let failure = failure_of(&install);
    assert_eq!(failure.kind, ErrorKind::ArchiveOpenFailure);
    assert_eq!(failure.operation, Operation::Extract);
    assert_eq!(failure.diagnostic(), "demo: extract: not an archive");
    assert!(!install.outcome().unwrap().unregistered);
}

#[test]
fn archive_is_deleted_after_a_successful_extraction() {
    let install = extracting("demo").advance(Event::Done);
    assert_eq!(install.action(), &Action::DeleteArchive { path: "__modules__/demo.zip".to_string() });
}

#[test]
fn failed_removal_leaves_the_package_unregistered() {
    let install = extracting("demo").advance(Event::Done);
    let install = install.advance(failed(ErrorKind::FileIoFailure, "permission denied"));
    let outcome = install.outcome().unwrap();
    assert_eq!(outcome.failure.as_ref().unwrap().operation, Operation::DeleteArchive);
    assert!(outcome.unregistered);
    assert_eq!(
        outcome.warning(),
        Some("demo: extracted, but not listed in the manifest".to_string())
    );
}

#[test]
fn failed_manifest_update_leaves_the_package_unregistered() {
    let install = extracting("demo").advance(Event::Done).advance(Event::Done);
    let install = install.advance(failed(ErrorKind::ManifestMalformed, "manifest is malformed"));
    let outcome = install.outcome().unwrap();
    let failure = outcome.failure.as_ref().unwrap();
    assert_eq!(failure.kind, ErrorKind::ManifestMalformed);
    assert_eq!(failure.operation, Operation::UpdateManifest);
    assert_eq!(failure.diagnostic(), "demo: update manifest: manifest is malformed");
    assert!(outcome.unregistered);
    assert!(!outcome.is_success());
}

#[test]
fn first_failure_is_the_one_reported() {
    let install = extracting("demo").advance(failed(ErrorKind::ArchiveEntryFailure, "entry 3"));
    let install = install.advance(failed(ErrorKind::FileIoFailure, "cannot delete"));
    let failure = failure_of(&install);
    assert_eq!(failure.kind, ErrorKind::ArchiveEntryFailure);
    assert_eq!(failure.cause, "entry 3");
}

#[test]
fn events_that_answer_nothing_change_nothing() {
    let install = install_package("demo".to_string()).advance(Event::Done);
    assert!(matches!(install.action(), Action::Fetch { .. }));
    let install = install.advance(response(200, "200 OK", b"zip"));
    let install = install.advance(response(500, "500", b"other"));
    assert_eq!(
        install.action(),
        &Action::WriteArchive { path: "__modules__/demo.zip".to_string(), body: b"zip".to_vec() }
    );
    let install = install.advance(Event::Done).advance(response(200, "200 OK", b""));
    assert!(matches!(install.action(), Action::Extract { .. }));
    let install = install.advance(Event::Done).advance(response(200, "200 OK", b""));
    assert!(matches!(install.action(), Action::DeleteArchive { .. }));
    let install = install.advance(Event::Done).advance(response(200, "200 OK", b""));
    assert!(matches!(install.action(), Action::UpdateManifest { .. }));
}

#[test]
fn operations_have_their_names() {
    assert_eq!(Operation::Fetch.name(), "fetch");
    assert_eq!(Operation::WriteArchive.name(), "write archive");
    assert_eq!(Operation::Extract.name(), "extract");
    assert_eq!(Operation::DeleteArchive.name(), "delete archive");
    assert_eq!(Operation::UpdateManifest.name(), "update manifest");
}

#[test]
fn download_fetches_extracts_and_removes() {
    let download = hpm::install::download_package(
        "http://host/p/p.zip".to_string(),
        "tmp/p.zip".to_string(),
        "out".to_string(),
    );
    assert_eq!(download.package(), "tmp/p.zip");
    assert_eq!(download.action(), &Action::Fetch { url: "http://host/p/p.zip".to_string() });
    let download = download.advance(response(200, "200 OK", b"zip"));
    assert_eq!(
        download.action(),
        &Action::WriteArchive { path: "tmp/p.zip".to_string(), body: b"zip".to_vec() }
    );
    let download = download.advance(Event::Done);
    assert_eq!(
        download.action(),
        &Action::Extract { archive: "tmp/p.zip".to_string(), output_dir: "out".to_string() }
    );
    let download = download.advance(Event::Done);
    assert_eq!(download.action(), &Action::DeleteArchive { path: "tmp/p.zip".to_string() });
    let download = download.advance(Event::Done);
    assert_eq!(
        download.action(),
        &Action::Finish { outcome: Outcome { failure: None, unregistered: false } }
    );
}

#[test]
fn download_that_fails_late_has_nothing_to_register() {
    let download = hpm::install::download_package(
        "http://host/p/p.zip".to_string(),
        "tmp/p.zip".to_string(),
        "out".to_string(),
    );
    let download = download
        .advance(response(200, "200 OK", b"zip"))
        .advance(Event::Done)
        .advance(Event::Done)
        .advance(failed(ErrorKind::FileIoFailure, "busy"));
    let outcome = download.outcome().unwrap();
    assert_eq!(outcome.failure.as_ref().unwrap().operation, Operation::DeleteArchive);
    assert_eq!(outcome.failure.as_ref().unwrap().package, "tmp/p.zip");
    assert!(!outcome.unregistered);
    assert_eq!(outcome.warning(), None);
}

#[test]
fn download_with_a_failed_status_writes_nothing() {
    let download = hpm::install::download_package(
        "http://host/p/p.zip".to_string(),
        "tmp/p.zip".to_string(),
        "out".to_string(),
    );
    let download = download.advance(response(404, "404 Not Found", b""));
    assert_eq!(
        download.outcome().unwrap().failure.as_ref().unwrap().diagnostic(),
        "tmp/p.zip: fetch: Request failed with status code: 404 Not Found"
    );
}
