//! The parts of the settings that are computed rather than read: the
//! run mode, and the file-listing location of a project.

use vstd::prelude::*;

use crate::project_id::{hyphenated_text, ProjectId};

verus! {

/// The mode the service runs in; it picks the settings file.
#[allow(non_camel_case_types)]
#[derive(Clone, Copy, Debug, PartialEq, Eq, Structural)]
pub enum RUST_ENV {
    Development,
    Testing,
    Production,
}

pub open spec fn env_name(e: RUST_ENV) -> Seq<char> {
    match e {
        RUST_ENV::Development => "Development"@,
        RUST_ENV::Testing => "Testing"@,
        RUST_ENV::Production => "Production"@,
    }
}

impl RUST_ENV {
    /// The mode named by `env`; any other text is development.
    pub fn from_str(env: &str) -> (r: RUST_ENV)
        ensures
            r == (if env@ == "Testing"@ {
                RUST_ENV::Testing
            } else if env@ == "Production"@ {
                RUST_ENV::Production
            } else {
                RUST_ENV::Development
            }),
    {
        if crate::provider::str_eq(env, "Testing") {
            RUST_ENV::Testing
        } else if crate::provider::str_eq(env, "Production") {
            RUST_ENV::Production
        } else {
            RUST_ENV::Development
        }
    }

    pub fn as_str(&self) -> (r: &'static str)
        ensures
            r@ == env_name(*self),
    {
        match self {
            RUST_ENV::Development => "Development",
            RUST_ENV::Testing => "Testing",
            RUST_ENV::Production => "Production",
        }
    }
}

/// Where a project's files are listed, under the configured prefix; with
/// no project, the placeholder `project_id`.
pub fn filesystem_endpoint(prefix: &str, project_id: Option<ProjectId>) -> (r: String)
    ensures
        r@ == prefix@ + "/"@ + match project_id {
            None => "project_id"@,
            Some(p) => hyphenated_text(p@),
        } + "/files"@,
{
    let base = prefix.to_owned();
    let with_slash = base.concat("/");
    let with_id = match project_id {
        None => with_slash.concat("project_id"),
        Some(p) => {
            let id = p.to_string();
            with_slash.concat(id.as_str())
        },
    };
    with_id.concat("/files")
}

} // verus!
