//! Evaluation of the worker's toolchain prerequisites.
//!
//! The probes — running the two toolchain commands, testing directories,
//! reading the configuration file — happen outside the library; what they
//! yielded is evaluated here.

use vstd::prelude::*;

use crate::text::{spec_contains, spec_trim, trim_str};
use crate::config::env_configured;

verus! {

/// What the setup flow needs to know before the worker can run: whether the
/// two toolchain commands answered (and with which version), whether the
/// project and its installed dependencies exist, and whether the
/// configuration file assigns the required keys.
#[derive(Clone, Debug, PartialEq, Eq)]
pub struct PrerequisiteStatus {
    pub node_installed: bool,
    pub node_version: Option<String>,
    pub pnpm_installed: bool,
    pub pnpm_version: Option<String>,
    pub project_exists: bool,
    pub dependencies_installed: bool,
    pub env_configured: bool,
}

/// Evaluates the prerequisite probes.  `node_output` and `pnpm_output` are
/// what the two version commands printed when they ran successfully, `None`
/// when they could not run or failed; a tool is installed exactly when its
/// command answered, and its version is the trimmed output.  `env_content`
/// is the configuration file's text when it could be read; the configuration
/// counts as done when that text assigns both required keys.
pub fn evaluate_prerequisites(
    node_output: Option<String>,
    pnpm_output: Option<String>,
    project_exists: bool,
    dependencies_installed: bool,
    env_content: Option<String>,
) -> (r: PrerequisiteStatus)
    ensures
        r.node_installed == node_output is Some,
        node_output matches Some(o) ==> (r.node_version matches Some(v) && v@ == spec_trim(o@)),
        node_output is None ==> r.node_version is None,
        r.pnpm_installed == pnpm_output is Some,
        pnpm_output matches Some(o) ==> (r.pnpm_version matches Some(v) && v@ == spec_trim(o@)),
        pnpm_output is None ==> r.pnpm_version is None,
        r.project_exists == project_exists,
        r.dependencies_installed == dependencies_installed,
        r.env_configured == match env_content {
            Some(c) => spec_contains(c@, "TG_BOT_TOKEN="@) && spec_contains(
                c@,
                "AGENT_PATH="@,
            ),
            None => false,
        },
{
    let (node_installed, node_version) = version_of(node_output);
    let (pnpm_installed, pnpm_version) = version_of(pnpm_output);
    let env_ok = match env_content {
        Some(c) => env_configured(c.as_str()),
        None => false,
    };
    PrerequisiteStatus {
        node_installed,
        node_version,
        pnpm_installed,
        pnpm_version,
        project_exists,
        dependencies_installed,
        env_configured: env_ok,
    }
}

/// Whether a version command answered, and the trimmed version it printed.
fn version_of(output: Option<String>) -> (r: (bool, Option<String>))
    ensures
        r.0 == output is Some,
        output matches Some(o) ==> (r.1 matches Some(v) && v@ == spec_trim(o@)),
        output is None ==> r.1 is None,
{
    match output {
        Some(o) => {
            let v = String::from_str(trim_str(o.as_str()));
            (true, Some(v))
        },
        None => (false, None),
    }
}

} // verus!
