//! The installation of one package, as a sequence of actions.
//!
//! An [`Install`] holds the action that is due. The caller carries it out and
//! reports what happened with [`Install::advance`], which decides the next
//! action, until the action is [`Action::Finish`]. The first failure ends the
//! installation; only the removal of the transient archive still follows it.
//!
//! [`download_package`] starts the part that fetches an archive, extracts it
//! and removes it; [`install_package`] starts the same for a package of the
//! package host and has the package recorded in the manifest at the end.

use vstd::prelude::*;
use vstd::string::*;
use crate::errors::{ErrorKind, FetchError};
use crate::layout::{archive_path, archive_path_of, MANIFEST_FILE, MODULES_DIR, PACKAGE_HOST};
use crate::link::{generate_link, link_of};

verus! {

/// The operations of an installation.
#[derive(Clone, Copy, Debug, PartialEq, Eq, Structural)]
pub enum Operation {
    Fetch,
    WriteArchive,
    Extract,
    DeleteArchive,
    UpdateManifest,
}

/// The first failure of an installation: its kind, the operation that failed,
/// the package, and the cause in words.
#[derive(Debug, PartialEq, Eq)]
pub struct InstallError {
    pub kind: ErrorKind,
    pub operation: Operation,
    pub package: String,
    pub cause: String,
}

/// The mathematical value of an [`InstallError`].
pub ghost struct InstallErrorView {
    pub kind: ErrorKind,
    pub operation: Operation,
    pub package: Seq<char>,
    pub cause: Seq<char>,
}

impl View for InstallError {
    type V = InstallErrorView;

    open spec fn view(&self) -> InstallErrorView {
        InstallErrorView {
            kind: self.kind,
            operation: self.operation,
            package: self.package@,
            cause: self.cause@,
        }
    }
}

/// The name of an operation in a diagnostic.
pub open spec fn operation_name(operation: Operation) -> Seq<char> {
    match operation {
        Operation::Fetch => "fetch"@,
        Operation::WriteArchive => "write archive"@,
        Operation::Extract => "extract"@,
        Operation::DeleteArchive => "delete archive"@,
        Operation::UpdateManifest => "update manifest"@,
    }
}

/// The diagnostic of a failure: the package, the operation and the cause,
/// with a colon and a space between them.
pub open spec fn diagnostic_of(error: InstallErrorView) -> Seq<char> {
    error.package + ": "@ + operation_name(error.operation) + ": "@ + error.cause
}

/// What is said of a package that was extracted and is not registered.
pub open spec fn unregistered_notice_of(package: Seq<char>) -> Seq<char> {
    package + ": extracted, but not listed in the manifest"@
}

impl Operation {
    /// The name of the operation in a diagnostic.
    pub fn name(self) -> (name: &'static str)
        ensures
            name@ == operation_name(self),
    {
        match self {
            Operation::Fetch => "fetch",
            Operation::WriteArchive => "write archive",
            Operation::Extract => "extract",
            Operation::DeleteArchive => "delete archive",
            Operation::UpdateManifest => "update manifest",
        }
    }
}

impl InstallError {
    /// The diagnostic to print for this failure.
    pub fn diagnostic(&self) -> (text: String)
        ensures
            text@ == diagnostic_of(self@),
    {
        let mut text = self.package.clone();
        text.append(": ");
        text.append(self.operation.name());
        text.append(": ");
        text.append(self.cause.as_str());
        text
    }
}

/// How an installation ended. `unregistered` says that the package was
/// extracted in full and yet is not listed in the manifest: its files are on
/// disk, and the failure came after them.
#[derive(Debug, PartialEq, Eq)]
pub struct Outcome {
    pub failure: Option<InstallError>,
    pub unregistered: bool,
}

/// The mathematical value of an [`Outcome`].
pub ghost struct OutcomeView {
    pub failure: Option<InstallErrorView>,
    pub unregistered: bool,
}

/// The value of a failure that may be absent.
pub open spec fn failure_view(failure: Option<InstallError>) -> Option<InstallErrorView> {
    match failure {
        Some(f) => Some(f@),
        None => None,
    }
}

impl View for Outcome {
    type V = OutcomeView;

    open spec fn view(&self) -> OutcomeView {
        OutcomeView { failure: failure_view(self.failure), unregistered: self.unregistered }
    }
}

impl Outcome {
    /// Whether the installation ended well.
    pub fn is_success(&self) -> (b: bool)
        ensures
            b == (self@.failure is None),
    {
        self.failure.is_none()
    }

    /// The warning to print beside the diagnostic, where the package was
    /// extracted and is not registered.
    pub fn warning(&self) -> (text: Option<String>)
        ensures
            match text {
                Some(t) => self@.unregistered && self@.failure is Some && t@
                    == unregistered_notice_of(self@.failure->0.package),
                None => !self@.unregistered || self@.failure is None,
            },
    {
        match &self.failure {
            Some(failure) => {
                if self.unregistered {
                    let mut text = failure.package.clone();
                    text.append(": extracted, but not listed in the manifest");
                    Some(text)
                } else {
                    None
                }
            },
            None => None,
        }
    }
}

/// What the caller is to do next.
#[derive(Debug, PartialEq, Eq)]
pub enum Action {
    /// Send one GET request to `url` and report the response, or the failure
    /// to get one.
    Fetch { url: String },
    /// Create or truncate the file `path` and write `body` to it.
    WriteArchive { path: String, body: Vec<u8> },
    /// Extract the archive file `archive` below `output_dir`.
    Extract { archive: String, output_dir: String },
    /// Delete the file `path`.
    DeleteArchive { path: String },
    /// Record `module` in the manifest file `path`.
    UpdateManifest { path: String, module: String },
    /// Nothing more: the installation has ended with `outcome`.
    Finish { outcome: Outcome },
}

/// The mathematical value of an [`Action`].
pub ghost enum ActionView {
    Fetch { url: Seq<char> },
    WriteArchive { path: Seq<char>, body: Seq<u8> },
    Extract { archive: Seq<char>, output_dir: Seq<char> },
    DeleteArchive { path: Seq<char> },
    UpdateManifest { path: Seq<char>, module: Seq<char> },
    Finish { outcome: OutcomeView },
}

impl View for Action {
    type V = ActionView;

    open spec fn view(&self) -> ActionView {
        match self {
            Action::Fetch { url } => ActionView::Fetch { url: url@ },
            Action::WriteArchive { path, body } => ActionView::WriteArchive {
                path: path@,
                body: body@,
            },
            Action::Extract { archive, output_dir } => ActionView::Extract {
                archive: archive@,
                output_dir: output_dir@,
            },
            Action::DeleteArchive { path } => ActionView::DeleteArchive { path: path@ },
            Action::UpdateManifest { path, module } => ActionView::UpdateManifest {
                path: path@,
                module: module@,
            },
            Action::Finish { outcome } => ActionView::Finish { outcome: outcome@ },
        }
    }
}

/// What happened when the caller carried out the action that was due.
#[derive(Debug, PartialEq, Eq)]
pub enum Event {
    /// The host answered: the status code, the status as the response words
    /// it, and the body.
    Response { status: u16, status_text: String, body: Vec<u8> },
    /// The action was carried out.
    Done,
    /// The action failed.
    Failed { kind: ErrorKind, cause: String },
}

/// The mathematical value of an [`Event`].
pub ghost enum EventView {
    Response { status: u16, status_text: Seq<char>, body: Seq<u8> },
    Done,
    Failed { kind: ErrorKind, cause: Seq<char> },
}

impl View for Event {
    type V = EventView;

    open spec fn view(&self) -> EventView {
        match self {
            Event::Response { status, status_text, body } => EventView::Response {
                status: *status,
                status_text: status_text@,
                body: body@,
            },
            Event::Done => EventView::Done,
            Event::Failed { kind, cause } => EventView::Failed { kind: *kind, cause: cause@ },
        }
    }
}

/// Whether a status code stands for success: the codes from 200 to 299.
pub open spec fn is_success(status: u16) -> bool {
    200 <= status < 300
}

/// Accepts a response by its status code, or names the failure.
pub fn check_response(status: u16) -> (r: Result<(), FetchError>)
    ensures
        is_success(status) <==> r is Ok,
        !is_success(status) ==> r == Err::<(), FetchError>(FetchError::Status { code: status }),
{
    if 200 <= status && status < 300 {
        Ok(())
    } else {
        Err(FetchError::Status { code: status })
    }
}

/// The cause given for a response with an unsuccessful status.
pub open spec fn status_cause(status_text: Seq<char>) -> Seq<char> {
    "Request failed with status code: "@ + status_text
}

/// The cause given where no response arrived.
pub open spec fn fetch_cause(cause: Seq<char>) -> Seq<char> {
    "Error occurred: "@ + cause
}

/// Where an installation keeps its files and what it is to record.
pub struct Target {
    /// The name under which failures are reported.
    pub package: String,
    /// The path of the transient archive.
    pub archive: String,
    /// The directory below which the archive is extracted.
    pub output_dir: String,
    /// The module to record in the manifest at the end, if any.
    pub module: Option<String>,
}

/// The mathematical value of a [`Target`].
pub ghost struct TargetView {
    pub package: Seq<char>,
    pub archive: Seq<char>,
    pub output_dir: Seq<char>,
    pub module: Option<Seq<char>>,
}

impl View for Target {
    type V = TargetView;

    open spec fn view(&self) -> TargetView {
        TargetView {
            package: self.package@,
            archive: self.archive@,
            output_dir: self.output_dir@,
            module: match self.module {
                Some(m) => Some(m@),
                None => None,
            },
        }
    }
}

/// The state of an installation.
pub struct Install {
    target: Target,
    pending: Action,
    failure: Option<InstallError>,
    extracted: bool,
}

/// The mathematical value of an [`Install`]: its target, the action that is
/// due, the first failure so far, and whether the archive was extracted in
/// full.
pub ghost struct InstallView {
    pub target: TargetView,
    pub pending: ActionView,
    pub failure: Option<InstallErrorView>,
    pub extracted: bool,
}

impl View for Install {
    type V = InstallView;

    closed spec fn view(&self) -> InstallView {
        InstallView {
            target: self.target@,
            pending: self.pending@,
            failure: failure_view(self.failure),
            extracted: self.extracted,
        }
    }
}

/// The state in which a download starts: the archive is to be fetched from
/// `url`, kept in the file `name` while it is extracted below `output_dir`,
/// and removed. Nothing is recorded in the manifest.
pub open spec fn start_download(url: Seq<char>, name: Seq<char>, output_dir: Seq<char>) -> InstallView {
    InstallView {
        target: TargetView { package: name, archive: name, output_dir, module: None },
        pending: ActionView::Fetch { url },
        failure: None,
        extracted: false,
    }
}

/// The target of the installation of `package`: its archive lies in the
/// modules directory, it is extracted there, and the package is recorded.
pub open spec fn target_of(package: Seq<char>) -> TargetView {
    TargetView {
        package,
        archive: archive_path_of(package),
        output_dir: MODULES_DIR@,
        module: Some(package),
    }
}

/// The state in which the installation of `package` starts: the archive is to
/// be fetched from the package's address.
pub open spec fn start(package: Seq<char>) -> InstallView {
    InstallView {
        target: target_of(package),
        pending: ActionView::Fetch { url: link_of(PACKAGE_HOST@, package) },
        failure: None,
        extracted: false,
    }
}

/// A failure of `operation` in the installation `s`.
pub open spec fn failure_of(s: InstallView, kind: ErrorKind, operation: Operation, cause: Seq<char>) -> InstallErrorView {
    InstallErrorView { kind, operation, package: s.target.package, cause }
}

/// An installation that has ended with `failure`, or well with `None`. Where
/// it failed after the archive was extracted in full, and a module was to be
/// recorded, the outcome says that the package is not registered.
pub open spec fn ended(target: TargetView, extracted: bool, failure: Option<InstallErrorView>) -> InstallView {
    InstallView {
        target,
        pending: ActionView::Finish {
            outcome: OutcomeView {
                failure,
                unregistered: failure is Some && extracted && target.module is Some,
            },
        },
        failure,
        extracted,
    }
}

/// The installation `s` ended with `failure`, or well with `None`.
pub open spec fn finished(s: InstallView, failure: Option<InstallErrorView>) -> InstallView {
    ended(s.target, s.extracted, failure)
}

/// The installation `s` with another action due.
pub open spec fn proceed(s: InstallView, pending: ActionView) -> InstallView {
    InstallView { target: s.target, pending, failure: s.failure, extracted: s.extracted }
}

/// The installation `s` with the removal of its archive due, after `failure`.
pub open spec fn clean_up(s: InstallView, failure: InstallErrorView) -> InstallView {
    InstallView {
        target: s.target,
        pending: ActionView::DeleteArchive { path: s.target.archive },
        failure: Some(failure),
        extracted: s.extracted,
    }
}

/// The state after the event `e` in the state `s`. An event that cannot answer
/// the action that is due changes nothing.
pub open spec fn step(s: InstallView, e: EventView) -> InstallView {
    match s.pending {
        ActionView::Fetch { url } => match e {
            EventView::Response { status, status_text, body } => if is_success(status) {
                proceed(s, ActionView::WriteArchive { path: s.target.archive, body })
            } else {
                finished(
                    s,
                    Some(
                        failure_of(
                            s,
                            ErrorKind::HttpStatusFailure,
                            Operation::Fetch,
                            status_cause(status_text),
                        ),
                    ),
                )
            },
            EventView::Failed { kind, cause } => finished(
                s,
                Some(failure_of(s, kind, Operation::Fetch, fetch_cause(cause))),
            ),
            EventView::Done => s,
        },
        ActionView::WriteArchive { path, body } => match e {
            EventView::Done => proceed(
                s,
                ActionView::Extract { archive: s.target.archive, output_dir: s.target.output_dir },
            ),
            EventView::Failed { kind, cause } => clean_up(
                s,
                failure_of(s, kind, Operation::WriteArchive, cause),
            ),
            EventView::Response { .. } => s,
        },
        ActionView::Extract { archive, output_dir } => match e {
            EventView::Done => InstallView {
                target: s.target,
                pending: ActionView::DeleteArchive { path: s.target.archive },
                failure: s.failure,
                extracted: true,
            },
            EventView::Failed { kind, cause } => clean_up(
                s,
                failure_of(s, kind, Operation::Extract, cause),
            ),
            EventView::Response { .. } => s,
        },
        ActionView::DeleteArchive { path } => match e {
            EventView::Done => match s.failure {
                Some(failure) => finished(s, Some(failure)),
                None => match s.target.module {
                    Some(module) => proceed(
                        s,
                        ActionView::UpdateManifest { path: MANIFEST_FILE@, module },
                    ),
                    None => finished(s, None),
                },
            },
            EventView::Failed { kind, cause } => match s.failure {
                Some(failure) => finished(s, Some(failure)),
                None => finished(s, Some(failure_of(s, kind, Operation::DeleteArchive, cause))),
            },
            EventView::Response { .. } => s,
        },
        ActionView::UpdateManifest { path, module } => match e {
            EventView::Done => finished(s, None),
            EventView::Failed { kind, cause } => finished(
                s,
                Some(failure_of(s, kind, Operation::UpdateManifest, cause)),
            ),
            EventView::Response { .. } => s,
        },
        ActionView::Finish { .. } => s,
    }
}

/// Starts a download: the archive at `url` is fetched, kept in the file
/// `name` while it is extracted below `output_dir`, and removed. The first
/// action is the fetch.
pub fn download_package(url: String, name: String, output_dir: String) -> (install: Install)
    ensures
        install@ == start_download(url@, name@, output_dir@),
        well_formed(install@),
{
    let target = Target { package: name.clone(), archive: name, output_dir, module: None };
    Install { target, pending: Action::Fetch { url }, failure: None, extracted: false }
}

/// Starts the installation of `package`: its archive is fetched from its
/// address on the package host, kept in the modules directory while it is
/// extracted there, and removed; then the package is recorded in the
/// manifest. The first action is the fetch.
pub fn install_package(package: String) -> (install: Install)
    ensures
        install@ == start(package@),
        well_formed(install@),
{
    let url = generate_link(PACKAGE_HOST.to_owned(), package.clone());
    let target = Target {
        archive: archive_path(package.as_str()),
        output_dir: MODULES_DIR.to_owned(),
        module: Some(package.clone()),
        package,
    };
    Install { target, pending: Action::Fetch { url }, failure: None, extracted: false }
}

/// Ends an installation.
fn finish(target: Target, failure: Option<InstallError>, extracted: bool) -> (install: Install)
    ensures
        install@ == ended(target@, extracted, failure_view(failure)),
{
    match failure {
        Some(f) => {
            let kept = InstallError {
                kind: f.kind,
                operation: f.operation,
                package: f.package.clone(),
                cause: f.cause.clone(),
            };
            let unregistered = extracted && target.module.is_some();
            Install {
                target,
                pending: Action::Finish { outcome: Outcome { failure: Some(f), unregistered } },
                failure: Some(kept),
                extracted,
            }
        },
        None => Install {
            target,
            pending: Action::Finish { outcome: Outcome { failure: None, unregistered: false } },
            failure: None,
            extracted,
        },
    }
}

/// Names the failure of `operation` for the package of `target`.
fn fail(target: &Target, kind: ErrorKind, operation: Operation, cause: String) -> (error:
    InstallError)
    ensures
        error@ == (InstallErrorView { kind, operation, package: target@.package, cause: cause@ }),
{
    InstallError { kind, operation, package: target.package.clone(), cause }
}

impl Install {
    /// The name under which the installation reports its failures: the
    /// package, or the archive file of a download.
    pub fn package(&self) -> (package: &str)
        ensures
            package@ == self@.target.package,
    {
        self.target.package.as_str()
    }

    /// The action that is due.
    pub fn action(&self) -> (action: &Action)
        ensures
            action@ == self@.pending,
    {
        &self.pending
    }

    /// How the installation ended, once it has.
    pub fn outcome(&self) -> (outcome: Option<&Outcome>)
        ensures
            match outcome {
                Some(o) => self@.pending == (ActionView::Finish { outcome: o@ }),
                None => !(self@.pending is Finish),
            },
    {
        match &self.pending {
            Action::Finish { outcome } => Some(outcome),
            _ => None,
        }
    }

    /// Gives up the state for the way the installation ended, once it has.
    pub fn into_outcome(self) -> (outcome: Option<Outcome>)
        ensures
            match outcome {
                Some(o) => self@.pending == (ActionView::Finish { outcome: o@ }),
                None => !(self@.pending is Finish),
            },
    {
        match self.pending {
            Action::Finish { outcome } => Some(outcome),
            _ => None,
        }
    }

    /// Takes in what happened to the action that was due, and decides the next
    /// one.
    pub fn advance(self, event: Event) -> (next: Install)
        ensures
            next@ == step(self@, event@),
            well_formed(self@) ==> well_formed(next@),
    {
        let Install { target, pending, failure, extracted } = self;
        match pending {
            Action::Fetch { url } => match event {
                Event::Response { status, status_text, body } => match check_response(status) {
                    Ok(()) => {
                        let path = target.archive.clone();
                        Install {
                            target,
                            pending: Action::WriteArchive { path, body },
                            failure,
                            extracted,
                        }
                    },
                    Err(e) => {
                        let mut cause = "Request failed with status code: ".to_owned();
                        cause.append(status_text.as_str());
                        let error = fail(&target, e.kind(), Operation::Fetch, cause);
                        finish(target, Some(error), extracted)
                    },
                },
                Event::Failed { kind, cause } => {
                    let mut words = "Error occurred: ".to_owned();
                    words.append(cause.as_str());
                    let error = fail(&target, kind, Operation::Fetch, words);
                    finish(target, Some(error), extracted)
                },
                Event::Done => Install { target, pending: Action::Fetch { url }, failure, extracted },
            },
            Action::WriteArchive { path, body } => match event {
                Event::Done => {
                    let archive = target.archive.clone();
                    let output_dir = target.output_dir.clone();
                    Install {
                        target,
                        pending: Action::Extract { archive, output_dir },
                        failure,
                        extracted,
                    }
                },
                Event::Failed { kind, cause } => {
                    let error = fail(&target, kind, Operation::WriteArchive, cause);
                    let path = target.archive.clone();
                    Install {
                        target,
                        pending: Action::DeleteArchive { path },
                        failure: Some(error),
                        extracted,
                    }
                },
                Event::Response { .. } => Install {
                    target,
                    pending: Action::WriteArchive { path, body },
                    failure,
                    extracted,
                },
            },
            Action::Extract { archive, output_dir } => match event {
                Event::Done => {
                    let path = target.archive.clone();
                    Install {
                        target,
                        pending: Action::DeleteArchive { path },
                        failure,
                        extracted: true,
                    }
                },
                Event::Failed { kind, cause } => {
                    let error = fail(&target, kind, Operation::Extract, cause);
                    let path = target.archive.clone();
                    Install {
                        target,
                        pending: Action::DeleteArchive { path },
                        failure: Some(error),
                        extracted,
                    }
                },
                Event::Response { .. } => Install {
                    target,
                    pending: Action::Extract { archive, output_dir },
                    failure,
                    extracted,
                },
            },
            Action::DeleteArchive { path } => match event {
                Event::Done => match failure {
                    Some(f) => finish(target, Some(f), extracted),
                    None => match &target.module {
                        Some(module) => {
                            let module = module.clone();
                            Install {
                                target,
                                pending: Action::UpdateManifest {
                                    path: MANIFEST_FILE.to_owned(),
                                    module,
                                },
                                failure: None,
                                extracted,
                            }
                        },
                        None => finish(target, None, extracted),
                    },
                },
                Event::Failed { kind, cause } => match failure {
                    Some(f) => finish(target, Some(f), extracted),
                    None => {
                        let error = fail(&target, kind, Operation::DeleteArchive, cause);
                        finish(target, Some(error), extracted)
                    },
                },
                Event::Response { .. } => Install {
                    target,
                    pending: Action::DeleteArchive { path },
                    failure,
                    extracted,
                },
            },
            Action::UpdateManifest { path, module } => match event {
                Event::Done => finish(target, None, extracted),
                Event::Failed { kind, cause } => {
                    let error = fail(&target, kind, Operation::UpdateManifest, cause);
                    finish(target, Some(error), extracted)
                },
                Event::Response { .. } => Install {
                    target,
                    pending: Action::UpdateManifest { path, module },
                    failure,
                    extracted,
                },
            },
            Action::Finish { outcome } => Install {
                target,
                pending: Action::Finish { outcome },
                failure,
                extracted,
            },
        }
    }
}

/// What holds of every state that an installation goes through: the paths are
/// those of its target, nothing is due after a failure but the removal of the
/// archive, and the manifest is touched only after the archive was extracted
/// in full.
pub open spec fn well_formed(s: InstallView) -> bool {
    match s.pending {
        ActionView::Fetch { url } => {
            &&& s.failure is None
            &&& !s.extracted
        },
        ActionView::WriteArchive { path, body } => {
            &&& path == s.target.archive
            &&& s.failure is None
            &&& !s.extracted
        },
        ActionView::Extract { archive, output_dir } => {
            &&& archive == s.target.archive
            &&& output_dir == s.target.output_dir
            &&& s.failure is None
            &&& !s.extracted
        },
        ActionView::DeleteArchive { path } => {
            &&& path == s.target.archive
            &&& s.failure is None <==> s.extracted
        },
        ActionView::UpdateManifest { path, module } => {
            &&& path == MANIFEST_FILE@
            &&& s.target.module == Some(module)
            &&& s.failure is None
            &&& s.extracted
        },
        ActionView::Finish { outcome } => {
            &&& outcome.failure == s.failure
            &&& outcome.unregistered == (s.failure is Some && s.extracted && s.target.module is Some)
            &&& s.failure is None ==> s.extracted
        },
    }
}

} // verus!
