//! The discovery record: where it lies and what it holds.

use vstd::prelude::*;
use crate::handlers::SERVER_VERSION;
use crate::json_text::pretty_text;
use crate::payloads::{lock_file_content_json, LockFileContent, LockFileContentView};
use crate::text::{decimal, decimal_text, join};
use crate::tools::SERVER_NAME;

verus! {

/// The directory, below the client's data directory, that holds the
/// discovery records.
pub const LOCK_DIR_NAME: &'static str = "ide";

/// Why a discovery record could not be written or removed.
#[derive(Debug)]
pub enum LockFileError {
    /// The home directory is not known.
    NoHomeDir,
    /// Reading or writing failed.
    Io(String),
    /// The record could not be written as text.
    Serialize(String),
}

/// The words for a [`LockFileError`].
pub open spec fn lock_file_error_text(e: LockFileError) -> Seq<char> {
    match e {
        LockFileError::NoHomeDir => "Could not determine home directory"@,
        LockFileError::Io(msg) => "Lock file I/O error: "@ + msg@,
        LockFileError::Serialize(msg) => "Lock file serialization error: "@ + msg@,
    }
}

impl LockFileError {
    /// The error in words.
    pub fn message(&self) -> (r: String)
        ensures
            r@ == lock_file_error_text(*self),
    {
        match self {
            LockFileError::NoHomeDir => "Could not determine home directory".to_string(),
            LockFileError::Io(msg) => join("Lock file I/O error: ", msg.as_str()),
            LockFileError::Serialize(msg) => join("Lock file serialization error: ", msg.as_str()),
        }
    }
}

/// The name of the discovery record of the server on `port`.
pub open spec fn lock_file_name_text(port: u16) -> Seq<char> {
    decimal_text(port as nat) + ".lock"@
}

/// The address at which the server on `port` listens.
pub open spec fn transport_text(port: u16) -> Seq<char> {
    "ws://127.0.0.1:"@ + decimal_text(port as nat)
}

/// The discovery record of the server of process `pid` on `port` for the
/// workspace at `workspace_path`.
pub open spec fn record_for(
    pid: u32,
    port: u16,
    workspace_path: Seq<char>,
    version: Seq<char>,
) -> LockFileContentView {
    LockFileContentView {
        pid,
        workspace_path,
        transport: transport_text(port),
        ide_name: SERVER_NAME@,
        ide_version: Some(version),
    }
}

/// The directory in which a client looks for discovery records: the home
/// directory, the client's data directory `client_dir` and the directory of
/// the records, to be joined in this order.
pub open spec fn lock_dir_of(home: Seq<char>, client_dir: Seq<char>) -> Seq<Seq<char>> {
    seq![home, client_dir, LOCK_DIR_NAME@]
}

/// Where the discovery record of the server on `port` lies: in the
/// directory of the records, under the record's name.
pub open spec fn location_of(home: Seq<char>, client_dir: Seq<char>, port: u16) -> Seq<Seq<char>> {
    lock_dir_of(home, client_dir).push(lock_file_name_text(port))
}

/// The name of the discovery record of the server on `port`.
pub fn lock_file_name(port: u16) -> (r: String)
    ensures
        r@ == lock_file_name_text(port),
{
    join(decimal(port as u64).as_str(), ".lock")
}

/// The address at which the server on `port` listens.
pub fn transport_address(port: u16) -> (r: String)
    ensures
        r@ == transport_text(port),
{
    join("ws://127.0.0.1:", decimal(port as u64).as_str())
}

impl LockFileContent {
    /// The discovery record of the server of process `pid` on `port` for
    /// the workspace at `workspace_path`.
    pub fn for_server(pid: u32, port: u16, workspace_path: &str, version: &str) -> (r:
        LockFileContent)
        ensures
            r@ == record_for(pid, port, workspace_path@, version@),
    {
        LockFileContent {
            pid,
            workspace_path: workspace_path.to_string(),
            transport: transport_address(port),
            ide_name: SERVER_NAME.to_string(),
            ide_version: Some(version.to_string()),
        }
    }

    /// The text of the record as it is written to disk.
    pub fn file_text(&self) -> (r: String)
        ensures
            r@ == pretty_text(lock_file_content_json(self@)),
    {
        self.to_json().to_text_pretty()
    }
}

/// The directory in which the client whose data directory below the home
/// directory is `client_dir` looks for discovery records, as the parts of
/// its path from the home directory down. Without a home directory there is
/// no such place.
pub fn lock_dir(home: Option<&str>, client_dir: &str) -> (r: Option<Vec<String>>)
    ensures
        match r {
            Some(parts) => home is Some && parts.deep_view() == lock_dir_of(home->0@, client_dir@),
            None => home is None,
        },
{
    match home {
        Some(h) => {
            let mut parts: Vec<String> = Vec::new();
            parts.push(h.to_string());
            parts.push(client_dir.to_string());
            parts.push(LOCK_DIR_NAME.to_string());
            assert(parts.deep_view() =~= lock_dir_of(h@, client_dir@));
            Some(parts)
        },
        None => None,
    }
}

/// Where the discovery record of the server on `port` lies, as the parts
/// of its path from the home directory down: in the directory of
/// [`lock_dir`], under the name of [`lock_file_name`]. Without a home
/// directory there is no such place.
pub fn lock_file_location(home: Option<&str>, client_dir: &str, port: u16) -> (r: Result<
    Vec<String>,
    LockFileError,
>)
    ensures
        match r {
            Ok(parts) => home is Some && parts.deep_view() == location_of(
                home->0@,
                client_dir@,
                port,
            ),
            Err(e) => home is None && e is NoHomeDir,
        },
{
    match lock_dir(home, client_dir) {
        Some(directory) => {
            let mut parts = directory;
            let ghost before = parts.deep_view();
            parts.push(lock_file_name(port));
            assert(parts.deep_view() =~= before.push(lock_file_name_text(port)));
            Ok(parts)
        },
        None => Err(LockFileError::NoHomeDir),
    }
}

/// What is to be written for a server to be found, and where.
#[derive(Debug, Clone)]
pub struct DiscoveryPlan {
    /// The parts of the record's path, from the home directory down.
    pub location: Vec<String>,
    /// The text of the record.
    pub text: String,
}

/// The model of a [`DiscoveryPlan`].
pub ghost struct DiscoveryPlanView {
    pub location: Seq<Seq<char>>,
    pub text: Seq<char>,
}

impl View for DiscoveryPlan {
    type V = DiscoveryPlanView;

    open spec fn view(&self) -> DiscoveryPlanView {
        DiscoveryPlanView { location: self.location.deep_view(), text: self.text@ }
    }
}

/// Plans the discovery record of the server of process `pid` on `port` for
/// the workspace at `workspace_path`, to be found by the client whose data
/// directory is `client_dir`: without a home directory the error that says
/// so, and nothing to write; else the place below the home directory and
/// the record as indented JSON text.
pub fn plan_lock_file(
    home: Option<&str>,
    client_dir: &str,
    pid: u32,
    port: u16,
    workspace_path: &str,
) -> (r: Result<DiscoveryPlan, LockFileError>)
    ensures
        match r {
            Ok(plan) => home is Some && plan@ == (DiscoveryPlanView {
                location: location_of(home->0@, client_dir@, port),
                text: pretty_text(
                    lock_file_content_json(record_for(pid, port, workspace_path@, SERVER_VERSION@)),
                ),
            }),
            Err(e) => home is None && e is NoHomeDir,
        },
{
    match lock_file_location(home, client_dir, port) {
        Ok(location) => {
            let record = LockFileContent::for_server(pid, port, workspace_path, SERVER_VERSION);
            Ok(DiscoveryPlan { location, text: record.file_text() })
        },
        Err(e) => Err(e),
    }
}

/// What was being done to the discovery record when reading or writing
/// failed.
#[derive(Debug, Clone, Copy, PartialEq, Eq, Structural)]
pub enum LockFileAction {
    CreateDirectory,
    Write,
    Remove,
}

/// The words for what failed.
pub open spec fn failure_prefix(action: LockFileAction) -> Seq<char> {
    match action {
        LockFileAction::CreateDirectory => "Failed to create lock directory: "@,
        LockFileAction::Write => "Failed to write lock file: "@,
        LockFileAction::Remove => "Failed to remove lock file: "@,
    }
}

/// The error for a failure of reading or writing: it names what failed and
/// carries the detail.
pub fn io_failure(action: LockFileAction, detail: &str) -> (r: LockFileError)
    ensures
        r matches LockFileError::Io(msg) && msg@ == failure_prefix(action) + detail@,
{
    match action {
        LockFileAction::CreateDirectory => LockFileError::Io(
            join("Failed to create lock directory: ", detail),
        ),
        LockFileAction::Write => LockFileError::Io(join("Failed to write lock file: ", detail)),
        LockFileAction::Remove => LockFileError::Io(join("Failed to remove lock file: ", detail)),
    }
}

/// The discovery record on disk: where it lies.
#[derive(Debug)]
pub struct LockFile {
    path: String,
}

impl View for LockFile {
    type V = Seq<char>;

    closed spec fn view(&self) -> Seq<char> {
        self.path@
    }
}

impl LockFile {
    /// The record that lies at `path`.
    pub fn new(path: String) -> (r: LockFile)
        ensures
            r@ == path@,
    {
        LockFile { path }
    }

    /// Where the record lies.
    pub fn path(&self) -> (r: &String)
        ensures
            r@ == self@,
    {
        &self.path
    }
}

} // verus!
