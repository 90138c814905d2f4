//! The ways a launch attempt can fail, and the message each failure
//! surfaces to the host application.

use vstd::prelude::*;
use vstd::string::StringExecFns;

verus! {

/// The stage of log-sink setup that failed: the launcher resolves the
/// application-private data directory, creates it, opens the log file in
/// create-or-append mode, and duplicates the handle so stdout and stderr
/// share one file.
#[derive(Debug, Clone, Copy, PartialEq, Eq)]
pub enum LogStage {
    ResolveDataDir,
    CreateDataDir,
    OpenLogFile,
    CloneLogHandle,
}

/// A log-sink setup failure: the stage that failed and the underlying
/// operating-system diagnostic.
#[derive(Debug, Clone, PartialEq, Eq)]
pub struct LogFailure {
    pub stage: LogStage,
    pub detail: String,
}

/// Why a launch attempt failed. Every failure is returned to the caller as
/// a value; none crashes the host, and every failure leaves the supervisor
/// with no tracked child (except `AlreadyRunning`, which leaves the live
/// child exactly as it was).
#[derive(Debug, Clone, PartialEq, Eq)]
pub enum LaunchError {
    /// A live child is already tracked.
    AlreadyRunning,
    /// Every port in the configured range was occupied.
    NoPortAvailable,
    /// The log sink could not be set up.
    LogSetupFailed(LogFailure),
    /// The sibling service's entry point was not found at any candidate
    /// path nor at the working-directory fallback.
    EntryPointNotFound,
    /// The operating system refused to create the child process; the
    /// string is the underlying diagnostic.
    SpawnFailed(String),
}

/// What `LogFailure::message` returns, as a sequence of characters.
pub open spec fn spec_log_failure_message(f: LogFailure) -> Seq<char> {
    match f.stage {
        LogStage::ResolveDataDir => "Failed to resolve app data dir: "@ + f.detail@,
        LogStage::CreateDataDir => "Failed to create app data dir: "@ + f.detail@,
        LogStage::OpenLogFile => "Failed to open backend.log: "@ + f.detail@,
        LogStage::CloneLogHandle => "Failed to clone log file handle: "@ + f.detail@,
    }
}

/// What `LaunchError::message` returns, as a sequence of characters.
pub open spec fn spec_message(e: LaunchError) -> Seq<char> {
    match e {
        LaunchError::AlreadyRunning => "Backend is already running"@,
        LaunchError::NoPortAvailable => "No available port in range 3001-3010"@,
        LaunchError::LogSetupFailed(f) => spec_log_failure_message(f),
        LaunchError::EntryPointNotFound => "Cannot locate packages/backend/src/index.ts"@,
        LaunchError::SpawnFailed(detail) => "Failed to spawn bun backend: "@ + detail@,
    }
}

impl LogFailure {
    /// The descriptive message for this log-sink failure.
    pub fn message(&self) -> (r: String)
        ensures
            r@ == spec_log_failure_message(*self),
    {
        let prefix: &str = match self.stage {
            LogStage::ResolveDataDir => "Failed to resolve app data dir: ",
            LogStage::CreateDataDir => "Failed to create app data dir: ",
            LogStage::OpenLogFile => "Failed to open backend.log: ",
            LogStage::CloneLogHandle => "Failed to clone log file handle: ",
        };
        let mut r = prefix.to_owned();
        r.append(self.detail.as_str());
        r
    }
}

impl LaunchError {
    /// The descriptive message surfaced to the host application's caller.
    pub fn message(&self) -> (r: String)
        ensures
            r@ == spec_message(*self),
    {
        match self {
            LaunchError::AlreadyRunning => "Backend is already running".to_owned(),
            LaunchError::NoPortAvailable => "No available port in range 3001-3010".to_owned(),
            LaunchError::LogSetupFailed(f) => f.message(),
            LaunchError::EntryPointNotFound => "Cannot locate packages/backend/src/index.ts".to_owned(),
            LaunchError::SpawnFailed(detail) => {
                let mut r = "Failed to spawn bun backend: ".to_owned();
                r.append(detail.as_str());
                r
            },
        }
    }
}

} // verus!
