use vstd::prelude::*;
use vstd::string::*;

verus! {

/// Every way a run can fail, each with its own user-facing category.
#[derive(Debug, Clone, PartialEq, Eq)]
pub enum RunCommandError {
    KotlincNotFound,
    KotlincPermissionDenied,
    UnsupportedPlatform,
    SaveError(String),
    RemoveError(String),
    WaitError(String),
    KillError,
    FailedSpawn(String),
}

/// The mathematical value of a `RunCommandError`: details as character sequences.
pub enum ErrorModel {
    KotlincNotFound,
    KotlincPermissionDenied,
    UnsupportedPlatform,
    SaveError(Seq<char>),
    RemoveError(Seq<char>),
    WaitError(Seq<char>),
    KillError,
    FailedSpawn(Seq<char>),
}

impl View for RunCommandError {
    type V = ErrorModel;

    open spec fn view(&self) -> ErrorModel {
        match self {
            RunCommandError::KotlincNotFound => ErrorModel::KotlincNotFound,
            RunCommandError::KotlincPermissionDenied => ErrorModel::KotlincPermissionDenied,
            RunCommandError::UnsupportedPlatform => ErrorModel::UnsupportedPlatform,
            RunCommandError::SaveError(m) => ErrorModel::SaveError(m@),
            RunCommandError::RemoveError(m) => ErrorModel::RemoveError(m@),
            RunCommandError::WaitError(m) => ErrorModel::WaitError(m@),
            RunCommandError::KillError => ErrorModel::KillError,
            RunCommandError::FailedSpawn(m) => ErrorModel::FailedSpawn(m@),
        }
    }
}

/// Why launching the external tool failed, as far as the caller's remedy goes.
#[derive(Debug, Clone, Copy, PartialEq, Eq, Structural)]
pub enum SpawnFailure {
    NotFound,
    PermissionDenied,
    Other,
}

pub open spec fn save_message(detail: Seq<char>) -> Seq<char> {
    "Failed to save code to temporary file: "@ + detail
}

pub open spec fn remove_message(detail: Seq<char>) -> Seq<char> {
    "Failed to remove temporary file: "@ + detail
}

pub open spec fn spawn_message(detail: Seq<char>) -> Seq<char> {
    "Failed to run kotlinc: "@ + detail
}

/// The error reported for a spawn failure of the given kind.
pub open spec fn spawn_error_model(kind: SpawnFailure, detail: Seq<char>) -> ErrorModel {
    match kind {
        SpawnFailure::NotFound => ErrorModel::KotlincNotFound,
        SpawnFailure::PermissionDenied => ErrorModel::KotlincPermissionDenied,
        SpawnFailure::Other => ErrorModel::FailedSpawn(spawn_message(detail)),
    }
}

fn prefixed(prefix: &str, detail: &str) -> (r: String)
    ensures
        r@ == prefix@ + detail@,
{
    let mut m = String::from_str(prefix);
    m.append(detail);
    m
}

/// Error for a failed write of the staged script.
pub fn save_error(detail: &str) -> (r: RunCommandError)
    ensures
        r@ == ErrorModel::SaveError(save_message(detail@)),
{
    RunCommandError::SaveError(prefixed("Failed to save code to temporary file: ", detail))
}

/// Error for a failed removal of the staged script.
pub fn remove_error(detail: &str) -> (r: RunCommandError)
    ensures
        r@ == ErrorModel::RemoveError(remove_message(detail@)),
{
    RunCommandError::RemoveError(prefixed("Failed to remove temporary file: ", detail))
}

/// Error for a failed wait on the supervised process; the detail is kept as it is.
pub fn map_waiting_error(detail: &str) -> (r: RunCommandError)
    ensures
        r@ == ErrorModel::WaitError(detail@),
{
    RunCommandError::WaitError(String::from_str(detail))
}

/// Classifies a spawn failure: a missing tool and a permission problem get
/// their own variants, anything else keeps its detail.
pub fn describe_spawn_error(kind: SpawnFailure, detail: &str) -> (r: RunCommandError)
    ensures
        r@ == spawn_error_model(kind, detail@),
{
    match kind {
        SpawnFailure::NotFound => RunCommandError::KotlincNotFound,
        SpawnFailure::PermissionDenied => RunCommandError::KotlincPermissionDenied,
        SpawnFailure::Other => RunCommandError::FailedSpawn(prefixed("Failed to run kotlinc: ", detail)),
    }
}

impl RunCommandError {
    /// A copy with the same value.
    pub fn duplicate(&self) -> (r: RunCommandError)
        ensures
            r@ == self@,
    {
        match self {
            RunCommandError::KotlincNotFound => RunCommandError::KotlincNotFound,
            RunCommandError::KotlincPermissionDenied => RunCommandError::KotlincPermissionDenied,
            RunCommandError::UnsupportedPlatform => RunCommandError::UnsupportedPlatform,
            RunCommandError::SaveError(m) => RunCommandError::SaveError(m.clone()),
            RunCommandError::RemoveError(m) => RunCommandError::RemoveError(m.clone()),
            RunCommandError::WaitError(m) => RunCommandError::WaitError(m.clone()),
            RunCommandError::KillError => RunCommandError::KillError,
            RunCommandError::FailedSpawn(m) => RunCommandError::FailedSpawn(m.clone()),
        }
    }
}

} // verus!
