//! The layered error taxonomy of a launch: child-process failures compose
//! into keystore and conductor errors, and those into the top-level
//! [`AppError`]. Every error renders to one line of text.

use vstd::prelude::*;
use vstd::string::StringExecFns;

verus! {

/// `prefix`, then `detail`, then a closing backtick.
pub open spec fn quoted(prefix: Seq<char>, detail: Seq<char>) -> Seq<char> {
    prefix + detail + seq!['`']
}

/// Builds the text `prefix` + `detail` + a closing backtick.
pub fn quote(prefix: &str, detail: &str) -> (s: String)
    ensures
        s@ == quoted(prefix@, detail@),
{
    let mut s = String::from_str(prefix);
    s.append(detail);
    s.push('`');
    s
}

/// A sidecar binary could not be started.
#[derive(Debug, Clone, PartialEq, Eq)]
pub enum LaunchChildError {
    BinaryNotFound,
    FailedToExecute(String),
}

impl LaunchChildError {
    /// The text of this error.
    pub open spec fn message_text(&self) -> Seq<char> {
        match self {
            LaunchChildError::BinaryNotFound => "Sidecar binary was not found"@,
            LaunchChildError::FailedToExecute(e) => quoted(
                "Failed to execute sidecar binary: `"@,
                e@,
            ),
        }
    }

    /// Renders this error as text.
    pub fn message(&self) -> (s: String)
        ensures
            s@ == self.message_text(),
    {
        match self {
            LaunchChildError::BinaryNotFound => String::from_str("Sidecar binary was not found"),
            LaunchChildError::FailedToExecute(e) => quote(
                "Failed to execute sidecar binary: `",
                e.as_str(),
            ),
        }
    }
}

/// The conductor started but could not initialize.
#[derive(Debug, Clone, PartialEq, Eq)]
pub enum InitializeConductorError {
    UnknownError(String),
    SqliteError(String),
    AddressAlreadyInUse(String),
}

impl InitializeConductorError {
    /// The text of this error.
    pub open spec fn message_text(&self) -> Seq<char> {
        match self {
            InitializeConductorError::UnknownError(e) => quoted("Unknown Error: `"@, e@),
            InitializeConductorError::SqliteError(e) => quoted(
                "Could not connect to the database of the conductor: `"@,
                e@,
            ),
            InitializeConductorError::AddressAlreadyInUse(e) => quoted(
                "Address already in use: `"@,
                e@,
            ),
        }
    }

    /// Renders this error as text.
    pub fn message(&self) -> (s: String)
        ensures
            s@ == self.message_text(),
    {
        match self {
            InitializeConductorError::UnknownError(e) => quote("Unknown Error: `", e.as_str()),
            InitializeConductorError::SqliteError(e) => quote(
                "Could not connect to the database of the conductor: `",
                e.as_str(),
            ),
            InitializeConductorError::AddressAlreadyInUse(e) => quote(
                "Address already in use: `",
                e.as_str(),
            ),
        }
    }
}

/// The keystore service could not be initialized, started or reached.
#[derive(Debug, Clone, PartialEq, Eq)]
pub enum LairKeystoreError {
    LaunchChildError(LaunchChildError),
    ErrorWritingPassword(String),
    IncorrectPassword,
    ErrorCreatingLairClient(String),
    ErrorReadingLairConfig(String),
    ErrorWritingLairConfig(String),
    ErrorCreatingSymLink(String),
    OtherError(String),
    SignZomeCallError(String),
    SpawnMetaLairClientError(String),
}

impl LairKeystoreError {
    /// The text of this error.
    pub open spec fn message_text(&self) -> Seq<char> {
        match self {
            LairKeystoreError::LaunchChildError(e) => quoted(
                "Failed to launch child: `"@,
                e.message_text(),
            ),
            LairKeystoreError::ErrorWritingPassword(e) => quoted(
                "Failed to write the password: `"@,
                e@,
            ),
            LairKeystoreError::IncorrectPassword => "Incorrect password"@,
            LairKeystoreError::ErrorCreatingLairClient(e) => quoted(
                "Failed to create LairClient: `"@,
                e@,
            ),
            LairKeystoreError::ErrorReadingLairConfig(e) => quoted(
                "Failed to create temp dir: `"@,
                e@,
            ),
            LairKeystoreError::ErrorWritingLairConfig(e) => quoted(
                "Failed to read lair-keysstore-config.yaml: `"@,
                e@,
            ),
            LairKeystoreError::ErrorCreatingSymLink(e) => quoted(
                "Error creating a symlink of the lair directory: `"@,
                e@,
            ),
            LairKeystoreError::OtherError(e) => quoted("Lair Keystore Error: `"@, e@),
            LairKeystoreError::SignZomeCallError(e) => quoted("Failed to sign zome call: `"@, e@),
            LairKeystoreError::SpawnMetaLairClientError(e) => quoted(
                "Failed to spawn MetaLairClient: `"@,
                e@,
            ),
        }
    }

    /// Renders this error as text.
    pub fn message(&self) -> (s: String)
        ensures
            s@ == self.message_text(),
    {
        match self {
            LairKeystoreError::LaunchChildError(e) => {
                let inner = e.message();
                quote("Failed to launch child: `", inner.as_str())
            },
            LairKeystoreError::ErrorWritingPassword(e) => quote(
                "Failed to write the password: `",
                e.as_str(),
            ),
            LairKeystoreError::IncorrectPassword => String::from_str("Incorrect password"),
            LairKeystoreError::ErrorCreatingLairClient(e) => quote(
                "Failed to create LairClient: `",
                e.as_str(),
            ),
            LairKeystoreError::ErrorReadingLairConfig(e) => quote(
                "Failed to create temp dir: `",
                e.as_str(),
            ),
            LairKeystoreError::ErrorWritingLairConfig(e) => quote(
                "Failed to read lair-keysstore-config.yaml: `",
                e.as_str(),
            ),
            LairKeystoreError::ErrorCreatingSymLink(e) => quote(
                "Error creating a symlink of the lair directory: `",
                e.as_str(),
            ),
            LairKeystoreError::OtherError(e) => quote("Lair Keystore Error: `", e.as_str()),
            LairKeystoreError::SignZomeCallError(e) => quote(
                "Failed to sign zome call: `",
                e.as_str(),
            ),
            LairKeystoreError::SpawnMetaLairClientError(e) => quote(
                "Failed to spawn MetaLairClient: `",
                e.as_str(),
            ),
        }
    }
}

/// The conductor could not be configured, started or reached.
#[derive(Debug, Clone, PartialEq, Eq)]
pub enum LaunchHolochainError {
    LaunchChildError(LaunchChildError),
    ErrorWritingPassword(String),
    IoError(String),
    CouldNotConnectToConductor(String),
    CouldNotInitializeConductor(InitializeConductorError),
    FailedToOverwriteConfig(String),
    SidecarBinaryCommandError(String),
    ImpossibleError(String),
}

impl LaunchHolochainError {
    /// The text of this error.
    pub open spec fn message_text(&self) -> Seq<char> {
        match self {
            LaunchHolochainError::LaunchChildError(e) => quoted(
                "Failed to launch child: `"@,
                e.message_text(),
            ),
            LaunchHolochainError::ErrorWritingPassword(e) => quoted(
                "Failed to write the password: `"@,
                e@,
            ),
            LaunchHolochainError::IoError(e) => quoted("Error with the filesystem: `"@, e@),
            LaunchHolochainError::CouldNotConnectToConductor(e) => quoted(
                "Could not connect to the conductor: `"@,
                e@,
            ),
            LaunchHolochainError::CouldNotInitializeConductor(e) => quoted(
                "Could not initialize conductor: `"@,
                e.message_text(),
            ),
            LaunchHolochainError::FailedToOverwriteConfig(e) => quoted(
                "Failed to overwrite config: `"@,
                e@,
            ),
            LaunchHolochainError::SidecarBinaryCommandError(e) => quoted(
                "Failed to create sidecar binary command: `"@,
                e@,
            ),
            LaunchHolochainError::ImpossibleError(e) => quoted("Impossible error: `"@, e@),
        }
    }

    /// Renders this error as text.
    pub fn message(&self) -> (s: String)
        ensures
            s@ == self.message_text(),
    {
        match self {
            LaunchHolochainError::LaunchChildError(e) => {
                let inner = e.message();
                quote("Failed to launch child: `", inner.as_str())
            },
            LaunchHolochainError::ErrorWritingPassword(e) => quote(
                "Failed to write the password: `",
                e.as_str(),
            ),
            LaunchHolochainError::IoError(e) => quote("Error with the filesystem: `", e.as_str()),
            LaunchHolochainError::CouldNotConnectToConductor(e) => quote(
                "Could not connect to the conductor: `",
                e.as_str(),
            ),
            LaunchHolochainError::CouldNotInitializeConductor(e) => {
                let inner = e.message();
                quote("Could not initialize conductor: `", inner.as_str())
            },
            LaunchHolochainError::FailedToOverwriteConfig(e) => quote(
                "Failed to overwrite config: `",
                e.as_str(),
            ),
            LaunchHolochainError::SidecarBinaryCommandError(e) => quote(
                "Failed to create sidecar binary command: `",
                e.as_str(),
            ),
            LaunchHolochainError::ImpossibleError(e) => quote("Impossible error: `", e.as_str()),
        }
    }
}

/// Any failure that aborts a launch. Failures of the services that the
/// launch talks to are carried as the text they were reported with.
#[derive(Debug, Clone, PartialEq, Eq)]
pub enum AppError {
    FileSystemError(String),
    AppletsUIServerError(String),
    NotRunning,
    ConductorApiError(String),
    DatabaseError(String),
    SemVerError(String),
    AppBundleError(String),
    IoError(String),
    MrBundleError(String),
    ConductorError(String),
    TauriError(String),
    AdminWebsocketError(String),
    AppWebsocketError(String),
    SignZomeCallError(String),
    LairKeystoreError(LairKeystoreError),
    LaunchHolochainError(LaunchHolochainError),
}

impl AppError {
    /// The text of this error.
    pub open spec fn message_text(&self) -> Seq<char> {
        match self {
            AppError::FileSystemError(e) => quoted("Filesystem error: `"@, e@),
            AppError::AppletsUIServerError(e) => quoted("Applets UI server error: `"@, e@),
            AppError::NotRunning => "Holochain is not running"@,
            AppError::ConductorApiError(e) => quoted("ConductorApiError: `"@, e@),
            AppError::DatabaseError(e) => quoted("Database error: `"@, e@),
            AppError::SemVerError(e) => quoted(
                "Failed to conver package version to breaking version string: `"@,
                e@,
            ),
            AppError::AppBundleError(e) => e@,
            AppError::IoError(e) => e@,
            AppError::MrBundleError(e) => e@,
            AppError::ConductorError(e) => e@,
            AppError::TauriError(e) => e@,
            AppError::AdminWebsocketError(e) => quoted("Admin Websocket Error: `"@, e@),
            AppError::AppWebsocketError(e) => quoted("App Websocket Error: `"@, e@),
            AppError::SignZomeCallError(e) => quoted("Error signing zome call: `"@, e@),
            AppError::LairKeystoreError(e) => e.message_text(),
            AppError::LaunchHolochainError(e) => e.message_text(),
        }
    }

    /// Renders this error as text.
    pub fn message(&self) -> (s: String)
        ensures
            s@ == self.message_text(),
    {
        match self {
            AppError::FileSystemError(e) => quote("Filesystem error: `", e.as_str()),
            AppError::AppletsUIServerError(e) => quote("Applets UI server error: `", e.as_str()),
            AppError::NotRunning => String::from_str("Holochain is not running"),
            AppError::ConductorApiError(e) => quote("ConductorApiError: `", e.as_str()),
            AppError::DatabaseError(e) => quote("Database error: `", e.as_str()),
            AppError::SemVerError(e) => quote(
                "Failed to conver package version to breaking version string: `",
                e.as_str(),
            ),
            AppError::AppBundleError(e) => e.clone(),
            AppError::IoError(e) => e.clone(),
            AppError::MrBundleError(e) => e.clone(),
            AppError::ConductorError(e) => e.clone(),
            AppError::TauriError(e) => e.clone(),
            AppError::AdminWebsocketError(e) => quote("Admin Websocket Error: `", e.as_str()),
            AppError::AppWebsocketError(e) => quote("App Websocket Error: `", e.as_str()),
            AppError::SignZomeCallError(e) => quote("Error signing zome call: `", e.as_str()),
            AppError::LairKeystoreError(e) => e.message(),
            AppError::LaunchHolochainError(e) => e.message(),
        }
    }
}

} // verus!
