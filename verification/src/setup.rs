//! The step machines of the setup flows: installing the worker's
//! dependencies, and extracting the bundled worker.
//!
//! The toolchain commands, the directory changes and the archive run outside
//! the library; each step here takes what a command yielded and decides the
//! progress events to surface, the next command to run, and the exact
//! message of the outcome.

use vstd::prelude::*;

verus! {

/// A progress event of the dependency-installation flow.
#[derive(Clone, Debug, PartialEq, Eq)]
pub struct InstallProgress {
    pub stage: String,
    pub message: String,
    pub progress: u8,
}

/// A progress event of the bundle-extraction flow.
#[derive(Clone, Debug, PartialEq, Eq)]
pub struct ExtractionProgress {
    pub stage: String,
    pub message: String,
    pub progress: u8,
}

/// Whether an installation progress event carries exactly these fields.
pub open spec fn spec_install_progress(
    e: InstallProgress,
    stage: Seq<char>,
    message: Seq<char>,
    progress: u8,
) -> bool {
    e.stage@ == stage && e.message@ == message && e.progress == progress
}

/// Whether an extraction progress event carries exactly these fields.
pub open spec fn spec_extraction_progress(
    e: ExtractionProgress,
    stage: Seq<char>,
    message: Seq<char>,
    progress: u8,
) -> bool {
    e.stage@ == stage && e.message@ == message && e.progress == progress
}

/// The commands the installation flow runs, in the worker's project
/// directory: the pinned dependency install, the unpinned retry, the build.
#[derive(Clone, Copy, Debug, PartialEq, Eq, Structural)]
pub enum InstallCmd {
    InstallFrozen,
    InstallPlain,
    Build,
}

/// What running one command yielded: the OS refused to run it (with its
/// error text), or it ran to completion with an exit status and its stderr.
#[derive(Clone, Debug, PartialEq, Eq)]
pub enum CmdOutcome {
    SpawnError(String),
    Completed { success: bool, stderr: String },
}

/// What the installation flow does after a command: run another command,
/// finish with a success message, or fail with an error message.
#[derive(Clone, Debug, PartialEq, Eq)]
pub enum InstallNext {
    Run(InstallCmd),
    Done(String),
    Failed(String),
}

/// One step of the installation flow: the progress events to surface, in
/// order, and what to do next.
pub struct InstallTransition {
    pub events: Vec<InstallProgress>,
    pub next: InstallNext,
}

/// Opens the installation flow: surface the starting event, then run the
/// pinned install.
pub fn install_begin() -> (r: (InstallProgress, InstallCmd))
    ensures
        spec_install_progress(r.0, "starting"@, "Starting dependency installation..."@, 0),
        r.1 == InstallCmd::InstallFrozen,
{
    (install_event("starting", "Starting dependency installation...", 0), InstallCmd::InstallFrozen)
}

/// One step of the installation flow.  A spawn failure fails the flow with
/// the OS error text.  After the pinned install completes, the packages
/// event is surfaced; on success the build follows (with the build event),
/// on failure the unpinned retry follows.  A failed retry fails the flow
/// with the command's stderr; a successful one goes on to the build.  A
/// failed build fails the flow with its stderr; a successful one surfaces
/// the completion event and finishes.
pub fn install_step(cmd: InstallCmd, outcome: CmdOutcome) -> (r: InstallTransition)
    ensures
        outcome matches CmdOutcome::SpawnError(e) ==> {
            &&& r.events@.len() == 0
            &&& r.next matches InstallNext::Failed(m)
            &&& m@ == (if cmd == InstallCmd::Build {
                "Failed to run build: "@ + e@
            } else {
                "Failed to run pnpm install: "@ + e@
            })
        },
        outcome matches CmdOutcome::Completed { success, stderr } ==> {
            &&& cmd == InstallCmd::InstallFrozen && success ==> {
                &&& r.events@.len() == 2
                &&& spec_install_progress(
                    r.events@[0],
                    "installing"@,
                    "Installing packages..."@,
                    50,
                )
                &&& spec_install_progress(
                    r.events@[1],
                    "building"@,
                    "Building TypeScript..."@,
                    75,
                )
                &&& r.next == InstallNext::Run(InstallCmd::Build)
            }
            &&& cmd == InstallCmd::InstallFrozen && !success ==> {
                &&& r.events@.len() == 1
                &&& spec_install_progress(
                    r.events@[0],
                    "installing"@,
                    "Installing packages..."@,
                    50,
                )
                &&& r.next == InstallNext::Run(InstallCmd::InstallPlain)
            }
            &&& cmd == InstallCmd::InstallPlain && success ==> {
                &&& r.events@.len() == 1
                &&& spec_install_progress(
                    r.events@[0],
                    "building"@,
                    "Building TypeScript..."@,
                    75,
                )
                &&& r.next == InstallNext::Run(InstallCmd::Build)
            }
            &&& cmd == InstallCmd::InstallPlain && !success ==> {
                &&& r.events@.len() == 0
                &&& r.next matches InstallNext::Failed(m)
                &&& m@ == "pnpm install failed: "@ + stderr@
            }
            &&& cmd == InstallCmd::Build && success ==> {
                &&& r.events@.len() == 1
                &&& spec_install_progress(
                    r.events@[0],
                    "complete"@,
                    "Installation complete!"@,
                    100,
                )
                &&& r.next matches InstallNext::Done(m)
                &&& m@ == "Dependencies installed and built successfully"@
            }
            &&& cmd == InstallCmd::Build && !success ==> {
                &&& r.events@.len() == 0
                &&& r.next matches InstallNext::Failed(m)
                &&& m@ == "Build failed: "@ + stderr@
            }
        },
{
    match outcome {
        CmdOutcome::SpawnError(e) => {
            let m = if matches!(cmd, InstallCmd::Build) {
                String::from_str("Failed to run build: ").concat(e.as_str())
            } else {
                String::from_str("Failed to run pnpm install: ").concat(e.as_str())
            };
            InstallTransition { events: Vec::new(), next: InstallNext::Failed(m) }
        },
        CmdOutcome::Completed { success, stderr } => {
            match cmd {
                InstallCmd::InstallFrozen => {
                    let mut events: Vec<InstallProgress> = Vec::new();
                    events.push(install_event("installing", "Installing packages...", 50));
                    if success {
                        events.push(install_event("building", "Building TypeScript...", 75));
                        InstallTransition { events, next: InstallNext::Run(InstallCmd::Build) }
                    } else {
                        InstallTransition {
                            events,
                            next: InstallNext::Run(InstallCmd::InstallPlain),
                        }
                    }
                },
                InstallCmd::InstallPlain => {
                    if success {
                        let mut events: Vec<InstallProgress> = Vec::new();
                        events.push(install_event("building", "Building TypeScript...", 75));
                        InstallTransition { events, next: InstallNext::Run(InstallCmd::Build) }
                    } else {
                        let m = String::from_str("pnpm install failed: ").concat(stderr.as_str());
                        InstallTransition { events: Vec::new(), next: InstallNext::Failed(m) }
                    }
                },
                InstallCmd::Build => {
                    if success {
                        let mut events: Vec<InstallProgress> = Vec::new();
                        events.push(install_event("complete", "Installation complete!", 100));
                        InstallTransition {
                            events,
                            next: InstallNext::Done(
                                String::from_str("Dependencies installed and built successfully"),
                            ),
                        }
                    } else {
                        let m = String::from_str("Build failed: ").concat(stderr.as_str());
                        InstallTransition { events: Vec::new(), next: InstallNext::Failed(m) }
                    }
                },
            }
        },
    }
}

/// An installation progress event with exactly these fields.
fn install_event(stage: &str, message: &str, progress: u8) -> (r: InstallProgress)
    ensures
        spec_install_progress(r, stage@, message@, progress),
{
    InstallProgress {
        stage: String::from_str(stage),
        message: String::from_str(message),
        progress,
    }
}

/// The outcome of installing the package manager itself: success carries the
/// fixed message, a spawn failure or a failed run carries the OS error text
/// or the command's stderr.
pub fn install_pnpm_result(outcome: CmdOutcome) -> (r: Result<String, String>)
    ensures
        outcome matches CmdOutcome::SpawnError(e) ==> (r matches Err(m) && m@
            == "Failed to install pnpm: "@ + e@),
        outcome matches CmdOutcome::Completed { success, stderr } ==> {
            &&& success ==> (r matches Ok(m) && m@ == "pnpm installed successfully"@)
            &&& !success ==> (r matches Err(m) && m@ == "Failed to install pnpm: "@ + stderr@)
        },
{
    match outcome {
        CmdOutcome::SpawnError(e) => Err(
            String::from_str("Failed to install pnpm: ").concat(e.as_str()),
        ),
        CmdOutcome::Completed { success, stderr } => {
            if success {
                Ok(String::from_str("pnpm installed successfully"))
            } else {
                Err(String::from_str("Failed to install pnpm: ").concat(stderr.as_str()))
            }
        },
    }
}

/// Why the bundle extraction failed; each variant carries the underlying
/// error text.
#[derive(Clone, Debug, PartialEq, Eq)]
pub enum ExtractError {
    /// The bundle's resource directory could not be resolved.
    ResourceDir(String),
    /// The bundle archive is not at its place; carries that path.
    BundleMissing(String),
    /// The home directory is unknown.
    Home(String),
    /// A previous extraction could not be removed.
    RemoveExisting(String),
    /// The supervisor's own directory could not be created.
    CreateDir(String),
    /// The archive command could not be run.
    TarSpawn(String),
    /// The archive command failed; carries its stderr.
    TarFailed(String),
}

impl ExtractError {
    /// The error text surfaced to the caller.
    pub open spec fn spec_message(&self) -> Seq<char> {
        match self {
            ExtractError::ResourceDir(e) => "Failed to get resource directory: "@ + e@,
            ExtractError::BundleMissing(p) => "Bot bundle not found at: \""@ + p@ + "\""@,
            ExtractError::Home(e) => "Failed to get HOME: "@ + e@,
            ExtractError::RemoveExisting(e) => "Failed to remove existing bot directory: "@ + e@,
            ExtractError::CreateDir(e) => "Failed to create .chatcode directory: "@ + e@,
            ExtractError::TarSpawn(e) => "Failed to run tar: "@ + e@,
            ExtractError::TarFailed(e) => "Failed to extract bot bundle: "@ + e@,
        }
    }

    /// Renders the error text surfaced to the caller.
    pub fn message(&self) -> (r: String)
        ensures
            r@ == self.spec_message(),
    {
        match self {
            ExtractError::ResourceDir(e) => String::from_str(
                "Failed to get resource directory: ",
            ).concat(e.as_str()),
            ExtractError::BundleMissing(p) => String::from_str("Bot bundle not found at: \"")
                .concat(p.as_str()).concat("\""),
            ExtractError::Home(e) => String::from_str("Failed to get HOME: ").concat(e.as_str()),
            ExtractError::RemoveExisting(e) => String::from_str(
                "Failed to remove existing bot directory: ",
            ).concat(e.as_str()),
            ExtractError::CreateDir(e) => String::from_str(
                "Failed to create .chatcode directory: ",
            ).concat(e.as_str()),
            ExtractError::TarSpawn(e) => String::from_str("Failed to run tar: ").concat(
                e.as_str(),
            ),
            ExtractError::TarFailed(e) => String::from_str("Failed to extract bot bundle: ")
                .concat(e.as_str()),
        }
    }
}

/// The extraction flow's opening event.
pub fn extraction_started_event() -> (r: ExtractionProgress)
    ensures
        spec_extraction_progress(r, "starting"@, "Preparing to extract bot files..."@, 0),
{
    extraction_event("starting", "Preparing to extract bot files...", 0)
}

/// The extraction flow's event before the archive runs.
pub fn extraction_extracting_event() -> (r: ExtractionProgress)
    ensures
        spec_extraction_progress(r, "extracting"@, "Extracting bot files..."@, 30),
{
    extraction_event("extracting", "Extracting bot files...", 30)
}

/// The extraction flow's completion event.
pub fn extraction_complete_event() -> (r: ExtractionProgress)
    ensures
        spec_extraction_progress(r, "complete"@, "Bot files extracted successfully!"@, 100),
{
    extraction_event("complete", "Bot files extracted successfully!", 100)
}

/// An extraction progress event with exactly these fields.
fn extraction_event(stage: &str, message: &str, progress: u8) -> (r: ExtractionProgress)
    ensures
        spec_extraction_progress(r, stage@, message@, progress),
{
    ExtractionProgress {
        stage: String::from_str(stage),
        message: String::from_str(message),
        progress,
    }
}

/// Where the bundle archive sits under the application's resource directory.
pub fn bundle_path_of(resource_dir: &str) -> (r: String)
    ensures
        r@ == resource_dir@ + "/resources/bot-bundle.tar.gz"@,
{
    String::from_str(resource_dir).concat("/resources/bot-bundle.tar.gz")
}

/// Where the bundle is extracted to, under the supervisor's own directory.
pub fn bot_target_dir(chatcode_dir: &str) -> (r: String)
    ensures
        r@ == chatcode_dir@ + "/bot"@,
{
    String::from_str(chatcode_dir).concat("/bot")
}

/// The outcome of the archive run: success hands the target directory
/// through, a spawn failure or a failed run becomes the matching error.
pub fn tar_result(outcome: CmdOutcome, target_dir: String) -> (r: Result<String, ExtractError>)
    ensures
        outcome matches CmdOutcome::SpawnError(e) ==> r == Result::<String, ExtractError>::Err(
            ExtractError::TarSpawn(e),
        ),
        outcome matches CmdOutcome::Completed { success, stderr } ==> {
            &&& success ==> (r matches Ok(d) && d == target_dir)
            &&& !success ==> r == Result::<String, ExtractError>::Err(
                ExtractError::TarFailed(stderr),
            )
        },
{
    match outcome {
        CmdOutcome::SpawnError(e) => Err(ExtractError::TarSpawn(e)),
        CmdOutcome::Completed { success, stderr } => {
            if success {
                Ok(target_dir)
            } else {
                Err(ExtractError::TarFailed(stderr))
            }
        },
    }
}

/// The error text when the flag directory cannot be created.
pub fn setup_dir_error(e: &String) -> (r: String)
    ensures
        r@ == "Failed to create .chatcode directory: "@ + e@,
{
    String::from_str("Failed to create .chatcode directory: ").concat(e.as_str())
}

/// The error text when the setup flag cannot be written.
pub fn setup_flag_error(e: &String) -> (r: String)
    ensures
        r@ == "Failed to write setup flag: "@ + e@,
{
    String::from_str("Failed to write setup flag: ").concat(e.as_str())
}

/// What the setup flag file holds once setup finished.
pub fn setup_flag_content() -> (r: String)
    ensures
        r@ == "1"@,
{
    String::from_str("1")
}

} // verus!
