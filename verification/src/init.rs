//! Setting up a project: the modules directory and a fresh manifest.

use vstd::prelude::*;
use vstd::string::*;
use crate::errors::{ErrorKind, ManifestError};
use crate::layout::{MANIFEST_FILE, MODULES_DIR};
use crate::manifest::{initial_manifest, initialize, manifest_text, render_manifest};

verus! {

/// Something to report that does not end the set-up.
#[derive(Debug, PartialEq, Eq)]
pub struct Notice {
    pub kind: ErrorKind,
    pub text: String,
}

/// The mathematical value of a [`Notice`].
pub ghost struct NoticeView {
    pub kind: ErrorKind,
    pub text: Seq<char>,
}

impl View for Notice {
    type V = NoticeView;

    open spec fn view(&self) -> NoticeView {
        NoticeView { kind: self.kind, text: self.text@ }
    }
}

/// What setting up a project asks of the file system, in this order: create
/// the directory `modules_dir`, and where that fails report `folder_notice` and
/// go on; then create or overwrite the file `manifest_path` with
/// `manifest_text`.
#[derive(Debug, PartialEq, Eq)]
pub struct InitPlan {
    pub modules_dir: String,
    pub folder_notice: Notice,
    pub manifest_path: String,
    pub manifest_text: String,
}

/// The mathematical value of an [`InitPlan`].
pub ghost struct InitPlanView {
    pub modules_dir: Seq<char>,
    pub folder_notice: NoticeView,
    pub manifest_path: Seq<char>,
    pub manifest_text: Seq<char>,
}

impl View for InitPlan {
    type V = InitPlanView;

    open spec fn view(&self) -> InitPlanView {
        InitPlanView {
            modules_dir: self.modules_dir@,
            folder_notice: self.folder_notice@,
            manifest_path: self.manifest_path@,
            manifest_text: self.manifest_text@,
        }
    }
}

/// What is reported when the modules directory of the project `name` cannot be
/// created, which is so when it is already there.
pub open spec fn folder_notice_of(name: Seq<char>) -> NoticeView {
    NoticeView {
        kind: ErrorKind::DirExists,
        text: "An error accured while creating the folder "@ + name,
    }
}

/// The plan for the project `name` whose fresh manifest is written as `text`.
pub open spec fn init_plan_of(name: Seq<char>, text: Seq<char>) -> InitPlanView {
    InitPlanView {
        modules_dir: MODULES_DIR@,
        folder_notice: folder_notice_of(name),
        manifest_path: MANIFEST_FILE@,
        manifest_text: text,
    }
}

/// Plans the set-up of a project. `project_name` is the base name of the
/// working directory, `None` where the working directory cannot be determined.
/// The manifest of the plan is that of a fresh project: a project that is set
/// up again loses the list of its modules.
pub fn init_hypl(project_name: Option<String>) -> (r: Result<InitPlan, ManifestError>)
    ensures
        match project_name {
            None => r == Err::<InitPlan, ManifestError>(ManifestError::NoCwd),
            Some(name) => match manifest_text(initial_manifest(name@)) {
                Some(text) => r is Ok && r->Ok_0@ == init_plan_of(name@, text),
                None => r == Err::<InitPlan, ManifestError>(ManifestError::Malformed),
            },
        },
{
    let name = match project_name {
        Some(name) => name,
        None => {
            return Err(ManifestError::NoCwd);
        },
    };
    let mut text = "An error accured while creating the folder ".to_owned();
    text.append(name.as_str());
    let folder_notice = Notice { kind: ErrorKind::DirExists, text };
    let manifest = initialize(name);
    let manifest_text = match render_manifest(&manifest) {
        Ok(text) => text,
        Err(e) => {
            return Err(e);
        },
    };
    Ok(
        InitPlan {
            modules_dir: MODULES_DIR.to_owned(),
            folder_notice,
            manifest_path: MANIFEST_FILE.to_owned(),
            manifest_text,
        },
    )
}

} // verus!
