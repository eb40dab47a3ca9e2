//! The launch sequence: directories, keystore, conductor, admin connection,
//! application interface, installation. Each stage waits for the outcome of
//! one request; the outcome decides the next stage and the next request.
//! The launch itself touches nothing: its caller creates the directories,
//! spawns the processes and talks to the conductor, one request at a time,
//! and reports back what came of it.

use vstd::prelude::*;
use vstd::string::StringExecFns;
use crate::config::{APP_ID, BOOTSTRAP_SERVER, SIGNALING_SERVER};
use crate::errors::{
    AppError, InitializeConductorError, LairKeystoreError, LaunchChildError, LaunchHolochainError,
};
use crate::filesystem::{effective_network_seed, AppFileSystem};
use crate::install::{
    install_rank, opt_text, request_in, request_of, AppInstaller, InstallAction, InstallEvent,
    InstallStage,
};
use crate::paths::joined;
use crate::retry::{tries_again, ConnectRetry, RetryDecision, RetryPolicy};
use crate::text::{contains, contains_text, to_chars};

verus! {

/// The time to let the conductor settle before the first connection
/// attempt, in milliseconds.
pub const SETTLE_MILLIS: u64 = 100;

/// Where the launch stands: which outcome it waits for, or how it ended.
#[derive(Debug, Clone, Copy, PartialEq, Eq)]
pub enum LaunchStage {
    CreatingKeystoreDir,
    CreatingConductorDir,
    ProbingKeystore,
    InitializingKeystore,
    StartingKeystore,
    ShorteningSocketPath,
    RestartingKeystore,
    ConnectingKeystoreClient,
    PickingAdminPort,
    WritingConductorConfig,
    SpawningConductor,
    Settling,
    ConnectingAdmin,
    ListingAppInterfaces,
    PickingAppPort,
    AttachingAppInterface,
    ReadingNetworkSeed,
    InstallingApp,
    Done,
    Failed,
}

/// What the caller reports back.
#[derive(Debug, Clone, PartialEq, Eq)]
pub enum LaunchEvent {
    /// The request succeeded and there is nothing to report.
    Completed,
    /// The request failed, with this diagnostic.
    Failed(String),
    /// The request failed below the launch, with this error.
    FailedWith(AppError),
    /// Whether the keystore's configuration file exists.
    KeystoreProbed(bool),
    /// The keystore runs and is reached under this URL.
    KeystoreStarted(String),
    /// The free port that was found, if any.
    PortPicked(Option<u16>),
    /// The ports of the application interfaces that the conductor has.
    AppInterfacesListed(Vec<u16>),
    /// The content of the profile's network seed file, if it has one.
    NetworkSeedRead(Option<String>),
    /// The identifiers of the applications that the conductor has
    /// installed.
    AppsListed(Vec<String>),
}

/// What the conductor's configuration binds. The admin interface is open
/// to every local origin.
#[derive(Debug, Clone, PartialEq, Eq)]
pub struct ConductorSettings {
    pub data_root_path: String,
    pub keystore_connection_url: String,
    pub admin_port: u16,
    pub bootstrap_service: String,
    pub signal_url: String,
}

/// What the caller is asked to do next.
#[derive(Debug, Clone, PartialEq, Eq)]
pub enum LaunchAction {
    /// Create this directory unless it exists.
    EnsureDirectory(String),
    /// Report whether this file exists.
    ProbeKeystoreConfig(String),
    /// Initialize the keystore in this directory.
    InitializeKeystore(String),
    /// Start the keystore in this directory and report its URL.
    StartKeystore(String),
    /// Reach this keystore directory through a short link and rewrite the
    /// keystore's configuration accordingly.
    ShortenSocketPath(String),
    /// Connect a client to the keystore under this URL.
    ConnectKeystoreClient(String),
    /// Find a free local port.
    PickPort,
    /// Write these settings to this file, over what it holds.
    WriteConductorConfig { path: String, settings: ConductorSettings },
    /// Spawn this conductor binary with this configuration file.
    SpawnConductor { binary: String, config_path: String },
    /// Wait this many milliseconds.
    Wait(u64),
    /// Wait this many milliseconds, then connect to the admin interface on
    /// this port.
    ConnectAdmin { port: u16, delay_millis: u64 },
    /// Ask the conductor for its application interfaces.
    ListAppInterfaces,
    /// Attach an application interface on this port, open to every local
    /// origin, for this application.
    AttachAppInterface { port: u16, installed_app_id: String },
    /// Read the network seed file at this path.
    ReadNetworkSeed(String),
    /// A request of the installation.
    Install(InstallAction),
    /// The launch is done; these are the application's and the admin
    /// interface's ports.
    Finish { app_port: u16, admin_port: u16 },
    /// The launch failed with this error.
    Abort(AppError),
}

/// A launch in progress. The keystore URL and the two ports hold what was
/// reported for them, from the stage on that learns them.
#[derive(Debug, Clone, PartialEq, Eq)]
pub struct Launch {
    pub stage: LaunchStage,
    pub keystore_dir: String,
    pub keystore_config_path: String,
    pub conductor_dir: String,
    pub conductor_config_path: String,
    pub network_seed_path: String,
    pub conductor_binary: String,
    pub socket_path_limited: bool,
    pub default_seed: Option<String>,
    pub retry: ConnectRetry,
    pub keystore_url: String,
    pub admin_port: u16,
    pub app_port: u16,
    pub installer: AppInstaller,
}

/// A failure of the keystore to start is the one that the short link
/// corrects when the platform limits the length of socket paths and the
/// diagnostic says that the path was too long.
pub open spec fn is_path_too_long(limited: bool, diagnostic: Seq<char>) -> bool {
    limited && contains_text(diagnostic, "path must be shorter than"@)
}

/// The event as the installation takes it, if it is one of its own.
pub open spec fn install_event(event: LaunchEvent) -> Option<InstallEvent> {
    match event {
        LaunchEvent::Completed => Some(InstallEvent::Completed),
        LaunchEvent::Failed(reason) => Some(InstallEvent::Failed(reason)),
        LaunchEvent::AppsListed(apps) => Some(InstallEvent::AppsListed(apps)),
        _ => None,
    }
}

/// The stage that follows on `event`. A stage goes on with the outcome
/// that it waits for. A keystore that fails to start because its socket
/// path is too long is corrected and started once more, and only once. A
/// refused admin connection is attempted again while the retry allows it.
/// An existing application interface is used; only without one is a port
/// picked and an interface attached. Every other outcome fails the launch,
/// and the two ends are final.
pub open spec fn next_stage(m: Launch, event: LaunchEvent) -> LaunchStage {
    match m.stage {
        LaunchStage::CreatingKeystoreDir => match event {
            LaunchEvent::Completed => LaunchStage::CreatingConductorDir,
            _ => LaunchStage::Failed,
        },
        LaunchStage::CreatingConductorDir => match event {
            LaunchEvent::Completed => LaunchStage::ProbingKeystore,
            _ => LaunchStage::Failed,
        },
        LaunchStage::ProbingKeystore => match event {
            LaunchEvent::KeystoreProbed(initialized) => if initialized {
                LaunchStage::StartingKeystore
            } else {
                LaunchStage::InitializingKeystore
            },
            _ => LaunchStage::Failed,
        },
        LaunchStage::InitializingKeystore => match event {
            LaunchEvent::Completed => LaunchStage::StartingKeystore,
            _ => LaunchStage::Failed,
        },
        LaunchStage::StartingKeystore => match event {
            LaunchEvent::KeystoreStarted(_) => LaunchStage::ConnectingKeystoreClient,
            LaunchEvent::Failed(reason) => if is_path_too_long(m.socket_path_limited, reason@) {
                LaunchStage::ShorteningSocketPath
            } else {
                LaunchStage::Failed
            },
            LaunchEvent::FailedWith(error) => if is_path_too_long(
                m.socket_path_limited,
                error.message_text(),
            ) {
                LaunchStage::ShorteningSocketPath
            } else {
                LaunchStage::Failed
            },
            _ => LaunchStage::Failed,
        },
        LaunchStage::ShorteningSocketPath => match event {
            LaunchEvent::Completed => LaunchStage::RestartingKeystore,
            _ => LaunchStage::Failed,
        },
        LaunchStage::RestartingKeystore => match event {
            LaunchEvent::KeystoreStarted(_) => LaunchStage::ConnectingKeystoreClient,
            _ => LaunchStage::Failed,
        },
        LaunchStage::ConnectingKeystoreClient => match event {
            LaunchEvent::Completed => LaunchStage::PickingAdminPort,
            _ => LaunchStage::Failed,
        },
        LaunchStage::PickingAdminPort => match event {
            LaunchEvent::PortPicked(Some(_)) => LaunchStage::WritingConductorConfig,
            _ => LaunchStage::Failed,
        },
        LaunchStage::WritingConductorConfig => match event {
            LaunchEvent::Completed => LaunchStage::SpawningConductor,
            _ => LaunchStage::Failed,
        },
        LaunchStage::SpawningConductor => match event {
            LaunchEvent::Completed => LaunchStage::Settling,
            _ => LaunchStage::Failed,
        },
        LaunchStage::Settling => match event {
            LaunchEvent::Completed => LaunchStage::ConnectingAdmin,
            _ => LaunchStage::Failed,
        },
        LaunchStage::ConnectingAdmin => match event {
            LaunchEvent::Completed => LaunchStage::ListingAppInterfaces,
            LaunchEvent::Failed(_) => if tries_again(m.retry.policy, m.retry.attempts) {
                LaunchStage::ConnectingAdmin
            } else {
                LaunchStage::Failed
            },
            _ => LaunchStage::Failed,
        },
        LaunchStage::ListingAppInterfaces => match event {
            LaunchEvent::AppInterfacesListed(ports) => if ports@.len() > 0 {
                LaunchStage::ReadingNetworkSeed
            } else {
                LaunchStage::PickingAppPort
            },
            _ => LaunchStage::Failed,
        },
        LaunchStage::PickingAppPort => match event {
            LaunchEvent::PortPicked(Some(_)) => LaunchStage::AttachingAppInterface,
            _ => LaunchStage::Failed,
        },
        LaunchStage::AttachingAppInterface => match event {
            LaunchEvent::Completed => LaunchStage::ReadingNetworkSeed,
            _ => LaunchStage::Failed,
        },
        LaunchStage::ReadingNetworkSeed => match event {
            LaunchEvent::NetworkSeedRead(_) => LaunchStage::InstallingApp,
            _ => LaunchStage::Failed,
        },
        LaunchStage::InstallingApp => match install_event(event) {
            Some(e) => match crate::install::next_stage(
                m.installer.stage,
                m.installer.app_id@,
                e,
            ) {
                InstallStage::Done => LaunchStage::Done,
                InstallStage::Failed => LaunchStage::Failed,
                _ => LaunchStage::InstallingApp,
            },
            None => LaunchStage::Failed,
        },
        LaunchStage::Done => LaunchStage::Done,
        LaunchStage::Failed => LaunchStage::Failed,
    }
}

/// The seed that the installation uses: the profile's own where it has
/// one, else the deployment's.
pub open spec fn chosen_seed(profile_seed: Option<String>, default_seed: Option<String>)
    -> Option<Seq<char>> {
    match profile_seed {
        Some(s) => Some(s@),
        None => opt_text(default_seed),
    }
}

/// What the launch `after` holds, given that `event` took it there from
/// `before`: the URL, port or seed that the event reported to the stage
/// that waited for it, the count of the connection attempts, and the
/// stage of the installation, which begins when the seed is known;
/// everything else as before.
pub open spec fn is_update_of(after: Launch, before: Launch, event: LaunchEvent) -> bool {
    &&& after.keystore_dir@ == before.keystore_dir@
    &&& after.keystore_config_path@ == before.keystore_config_path@
    &&& after.conductor_dir@ == before.conductor_dir@
    &&& after.conductor_config_path@ == before.conductor_config_path@
    &&& after.network_seed_path@ == before.network_seed_path@
    &&& after.conductor_binary@ == before.conductor_binary@
    &&& after.socket_path_limited == before.socket_path_limited
    &&& opt_text(after.default_seed) == opt_text(before.default_seed)
    &&& after.retry.policy == before.retry.policy
    &&& after.installer.app_id@ == before.installer.app_id@
    &&& after.keystore_url@ == (match (before.stage, event) {
        (LaunchStage::StartingKeystore, LaunchEvent::KeystoreStarted(url)) => url@,
        (LaunchStage::RestartingKeystore, LaunchEvent::KeystoreStarted(url)) => url@,
        _ => before.keystore_url@,
    })
    &&& after.admin_port == (match (before.stage, event) {
        (LaunchStage::PickingAdminPort, LaunchEvent::PortPicked(Some(port))) => port,
        _ => before.admin_port,
    })
    &&& after.app_port == (match (before.stage, event) {
        (LaunchStage::ListingAppInterfaces, LaunchEvent::AppInterfacesListed(ports)) => if ports@.len()
            > 0 {
            ports@[0]
        } else {
            before.app_port
        },
        (LaunchStage::PickingAppPort, LaunchEvent::PortPicked(Some(port))) => port,
        _ => before.app_port,
    })
    &&& after.retry.attempts == (match (before.stage, event) {
        (LaunchStage::Settling, LaunchEvent::Completed) => 1u32,
        (LaunchStage::ConnectingAdmin, LaunchEvent::Failed(_)) => if tries_again(
            before.retry.policy,
            before.retry.attempts,
        ) {
            (before.retry.attempts + 1) as u32
        } else {
            before.retry.attempts
        },
        _ => before.retry.attempts,
    })
    &&& opt_text(after.installer.network_seed) == (match (before.stage, event) {
        (LaunchStage::ReadingNetworkSeed, LaunchEvent::NetworkSeedRead(seed)) => chosen_seed(
            seed,
            before.default_seed,
        ),
        _ => opt_text(before.installer.network_seed),
    })
    &&& after.installer.stage == (match (before.stage, event) {
        (LaunchStage::ReadingNetworkSeed, LaunchEvent::NetworkSeedRead(_)) => InstallStage::ListingApps,
        (LaunchStage::InstallingApp, _) => match install_event(event) {
            Some(e) => crate::install::next_stage(
                before.installer.stage,
                before.installer.app_id@,
                e,
            ),
            None => before.installer.stage,
        },
        _ => before.installer.stage,
    })
}

/// `settings` bind the conductor of the launch `m`: its state directory,
/// the keystore's URL, the admin port, and the deployment's bootstrap and
/// signaling endpoints.
pub open spec fn is_settings_of(settings: ConductorSettings, m: Launch) -> bool {
    &&& settings.data_root_path@ == m.conductor_dir@
    &&& settings.keystore_connection_url@ == m.keystore_url@
    &&& settings.admin_port == m.admin_port
    &&& settings.bootstrap_service@ == "https://bootstrap.holo.host"@
    &&& settings.signal_url@ == "wss://sbd-0.main.infra.holo.host"@
}

/// `action` is the request that the launch `m` waits on in its stage, or
/// that ends it. Of the error of a failed launch this says nothing.
pub open spec fn is_request_of(action: LaunchAction, m: Launch) -> bool {
    match m.stage {
        LaunchStage::CreatingKeystoreDir => action matches LaunchAction::EnsureDirectory(p) && p@
            == m.keystore_dir@,
        LaunchStage::CreatingConductorDir => action matches LaunchAction::EnsureDirectory(p) && p@
            == m.conductor_dir@,
        LaunchStage::ProbingKeystore => action matches LaunchAction::ProbeKeystoreConfig(p) && p@
            == m.keystore_config_path@,
        LaunchStage::InitializingKeystore => action matches LaunchAction::InitializeKeystore(p)
            && p@ == m.keystore_dir@,
        LaunchStage::StartingKeystore => action matches LaunchAction::StartKeystore(p) && p@
            == m.keystore_dir@,
        LaunchStage::ShorteningSocketPath => action matches LaunchAction::ShortenSocketPath(p)
            && p@ == m.keystore_dir@,
        LaunchStage::RestartingKeystore => action matches LaunchAction::StartKeystore(p) && p@
            == m.keystore_dir@,
        LaunchStage::ConnectingKeystoreClient => action matches LaunchAction::ConnectKeystoreClient(
            url,
        ) && url@ == m.keystore_url@,
        LaunchStage::PickingAdminPort => action is PickPort,
        LaunchStage::WritingConductorConfig => action matches LaunchAction::WriteConductorConfig {
            path,
            settings,
        } && path@ == m.conductor_config_path@ && is_settings_of(settings, m),
        LaunchStage::SpawningConductor => action matches LaunchAction::SpawnConductor {
            binary,
            config_path,
        } && binary@ == m.conductor_binary@ && config_path@ == m.conductor_config_path@,
        LaunchStage::Settling => action == LaunchAction::Wait(100),
        LaunchStage::ConnectingAdmin => action matches LaunchAction::ConnectAdmin {
            port,
            delay_millis,
        } && port == m.admin_port && delay_millis == (if m.retry.attempts <= 1 {
            0
        } else {
            m.retry.policy.delay_millis
        }),
        LaunchStage::ListingAppInterfaces => action is ListAppInterfaces,
        LaunchStage::PickingAppPort => action is PickPort,
        LaunchStage::AttachingAppInterface => action matches LaunchAction::AttachAppInterface {
            port,
            installed_app_id,
        } && port == m.app_port && installed_app_id@ == m.installer.app_id@,
        LaunchStage::ReadingNetworkSeed => action matches LaunchAction::ReadNetworkSeed(p) && p@
            == m.network_seed_path@,
        LaunchStage::InstallingApp => action matches LaunchAction::Install(a) && request_in(a)
            == request_of(m.installer.stage) && (a matches InstallAction::InstallApp {
            installed_app_id,
            network_seed,
        } ==> installed_app_id@ == m.installer.app_id@ && opt_text(network_seed) == opt_text(
            m.installer.network_seed,
        )) && (a matches InstallAction::EnableApp { installed_app_id } ==> installed_app_id@
            == m.installer.app_id@),
        LaunchStage::Done => action == (LaunchAction::Finish {
            app_port: m.app_port,
            admin_port: m.admin_port,
        }),
        LaunchStage::Failed => action is Abort,
    }
}

/// `error` is the error that stands for the diagnostic `reason` of a
/// request that failed in `stage`.
pub open spec fn is_error_of(error: AppError, stage: LaunchStage, reason: Seq<char>) -> bool {
    match stage {
        LaunchStage::CreatingKeystoreDir | LaunchStage::CreatingConductorDir => error
            matches AppError::IoError(m) && m@ == reason,
        LaunchStage::InitializingKeystore | LaunchStage::StartingKeystore
        | LaunchStage::RestartingKeystore => error matches AppError::LairKeystoreError(
            LairKeystoreError::LaunchChildError(LaunchChildError::FailedToExecute(m)),
        ) && m@ == reason,
        LaunchStage::ShorteningSocketPath => error matches AppError::LairKeystoreError(
            LairKeystoreError::ErrorCreatingSymLink(m),
        ) && m@ == reason,
        LaunchStage::ConnectingKeystoreClient => error matches AppError::LairKeystoreError(
            LairKeystoreError::SpawnMetaLairClientError(m),
        ) && m@ == reason,
        LaunchStage::WritingConductorConfig => error matches AppError::LaunchHolochainError(
            LaunchHolochainError::FailedToOverwriteConfig(m),
        ) && m@ == reason,
        LaunchStage::SpawningConductor => error matches AppError::LaunchHolochainError(
            LaunchHolochainError::SidecarBinaryCommandError(m),
        ) && m@ == reason,
        LaunchStage::ConnectingAdmin => error matches AppError::LaunchHolochainError(
            LaunchHolochainError::CouldNotConnectToConductor(m),
        ) && m@ == reason,
        LaunchStage::ListingAppInterfaces => error matches AppError::LaunchHolochainError(
            LaunchHolochainError::CouldNotConnectToConductor(m),
        ) && m@ == "Could not list app interfaces: "@ + reason,
        LaunchStage::AttachingAppInterface => error matches AppError::LaunchHolochainError(
            LaunchHolochainError::CouldNotConnectToConductor(m),
        ) && m@ == "Could not attach app interface"@,
        _ => is_impossible(error, "Unexpected answer during the launch"@),
    }
}

/// `error` says that something happened that cannot happen.
pub open spec fn is_impossible(error: AppError, text: Seq<char>) -> bool {
    error matches AppError::LaunchHolochainError(LaunchHolochainError::ImpossibleError(m)) && m@
        == text
}

/// `error` says that no free port was found.
pub open spec fn is_no_port(error: AppError, text: Seq<char>) -> bool {
    error matches AppError::LaunchHolochainError(
        LaunchHolochainError::CouldNotInitializeConductor(
            InitializeConductorError::AddressAlreadyInUse(m),
        ),
    ) && m@ == text
}

/// `error` is the error with which the launch `m` fails on `event`. An
/// error from below the launch is handed on as it is; a diagnostic becomes
/// the error of the stage that it failed; no free port is an error of its
/// own; a failure of the installation is the installation's; an event
/// that the stage does not wait for cannot happen.
pub open spec fn is_failure_of(error: AppError, m: Launch, event: LaunchEvent) -> bool {
    match m.stage {
        LaunchStage::Failed => is_impossible(error, "The launch has failed before"@),
        LaunchStage::InstallingApp => match event {
            LaunchEvent::FailedWith(e) => error == e,
            _ => match install_event(event) {
                Some(e) => crate::install::is_failure_of(error, m.installer.stage, e),
                None => is_impossible(error, "Unexpected answer during the launch"@),
            },
        },
        _ => match event {
            LaunchEvent::FailedWith(e) => error == e,
            LaunchEvent::Failed(reason) => is_error_of(error, m.stage, reason@),
            LaunchEvent::PortPicked(None) => match m.stage {
                LaunchStage::PickingAdminPort => is_no_port(
                    error,
                    "Cannot find any unused port"@,
                ),
                LaunchStage::PickingAppPort => is_no_port(error, "No ports free"@),
                _ => is_impossible(error, "Unexpected answer during the launch"@),
            },
            _ => is_impossible(error, "Unexpected answer during the launch"@),
        },
    }
}

/// The name of the conductor binary of the version `version`.
pub fn conductor_binary_name(version: &str) -> (name: String)
    ensures
        name@ == "holochain-v"@ + version@,
{
    let mut name = String::from_str("holochain-v");
    name.append(version);
    name
}

/// The error of a conductor that ended before it was ready, leaving
/// `diagnostic`: an address that is already in use is told apart from
/// every other reason.
pub fn initialization_error(diagnostic: String) -> (error: InitializeConductorError)
    ensures
        if contains_text(diagnostic@, "Address already in use"@) {
            error matches InitializeConductorError::AddressAlreadyInUse(m) && m@ == diagnostic@
        } else {
            error matches InitializeConductorError::UnknownError(m) && m@ == diagnostic@
        },
{
    let text = to_chars(diagnostic.as_str());
    let marker = to_chars("Address already in use");
    if contains(&text, &marker) {
        InitializeConductorError::AddressAlreadyInUse(diagnostic)
    } else {
        InitializeConductorError::UnknownError(diagnostic)
    }
}

/// Whether a failure of the keystore to start with `diagnostic` is the one
/// that a short link corrects.
pub fn path_too_long(limited: bool, diagnostic: &str) -> (b: bool)
    ensures
        b == is_path_too_long(limited, diagnostic@),
{
    if !limited {
        return false;
    }
    let text = to_chars(diagnostic);
    let marker = to_chars("path must be shorter than");
    contains(&text, &marker)
}

impl Launch {
    /// A launch for the layout `layout`, with the conductor binary
    /// `conductor_binary`. `socket_path_limited` says whether the platform
    /// limits the length of socket paths; `default_seed` is the
    /// deployment's network seed and `policy` bounds the admin connection
    /// attempts. The launch begins with the keystore's directory.
    pub fn start(
        layout: &AppFileSystem,
        conductor_binary: String,
        socket_path_limited: bool,
        default_seed: Option<String>,
        policy: RetryPolicy,
    ) -> (r: (Launch, LaunchAction))
        ensures
            r.0.stage == LaunchStage::CreatingKeystoreDir,
            r.0.keystore_dir@ == joined(layout.profile_data_dir@, "keystore"@),
            r.0.keystore_config_path@ == joined(
                joined(layout.profile_data_dir@, "keystore"@),
                "lair-keystore-config.yaml"@,
            ),
            r.0.conductor_dir@ == joined(layout.profile_data_dir@, "conductor"@),
            r.0.conductor_config_path@ == joined(
                joined(layout.profile_data_dir@, "conductor"@),
                "conductor-config.yaml"@,
            ),
            r.0.network_seed_path@ == joined(layout.profile_data_dir@, ".networkSeed"@),
            r.0.conductor_binary@ == conductor_binary@,
            r.0.socket_path_limited == socket_path_limited,
            opt_text(r.0.default_seed) == opt_text(default_seed),
            r.0.retry.policy == policy,
            r.0.retry.attempts == 1,
            r.0.keystore_url@.len() == 0,
            r.0.admin_port == 0,
            r.0.app_port == 0,
            r.0.installer.app_id@ == "forum"@,
            r.0.installer.network_seed is None,
            r.0.installer.stage == InstallStage::ListingApps,
            is_request_of(r.1, r.0),
    {
        let keystore_dir = layout.keystore_dir();
        let first = LaunchAction::EnsureDirectory(keystore_dir.clone());
        let (installer, _) = AppInstaller::start(String::from_str(APP_ID), None);
        let launch = Launch {
            stage: LaunchStage::CreatingKeystoreDir,
            keystore_dir,
            keystore_config_path: layout.keystore_config_path(),
            conductor_dir: layout.conductor_dir(),
            conductor_config_path: layout.conductor_config_path(),
            network_seed_path: layout.network_seed_path(),
            conductor_binary,
            socket_path_limited,
            default_seed,
            retry: ConnectRetry::start(policy),
            keystore_url: String::new(),
            admin_port: 0,
            app_port: 0,
            installer,
        };
        (launch, first)
    }

    /// Ends the launch with `error`.
    fn fail(&mut self, error: AppError) -> (action: LaunchAction)
        ensures
            *final(self) == (Launch { stage: LaunchStage::Failed, ..*old(self) }),
            action == LaunchAction::Abort(error),
    {
        self.stage = LaunchStage::Failed;
        LaunchAction::Abort(error)
    }

    /// Ends the launch on something that cannot happen.
    fn impossible(&mut self, text: &str) -> (action: LaunchAction)
        ensures
            *final(self) == (Launch { stage: LaunchStage::Failed, ..*old(self) }),
            action matches LaunchAction::Abort(e) && is_impossible(e, text@),
    {
        self.fail(
            AppError::LaunchHolochainError(
                LaunchHolochainError::ImpossibleError(String::from_str(text)),
            ),
        )
    }

    /// Ends the launch for want of a free port.
    fn no_port(&mut self, text: &str) -> (action: LaunchAction)
        ensures
            *final(self) == (Launch { stage: LaunchStage::Failed, ..*old(self) }),
            action matches LaunchAction::Abort(e) && is_no_port(e, text@),
    {
        self.fail(
            AppError::LaunchHolochainError(
                LaunchHolochainError::CouldNotInitializeConductor(
                    InitializeConductorError::AddressAlreadyInUse(String::from_str(text)),
                ),
            ),
        )
    }

    /// Moves on to `stage` and asks for the request that `stage` waits on.
    fn advance(&mut self, stage: LaunchStage) -> (action: LaunchAction)
        requires
            stage != LaunchStage::Failed,
            stage != LaunchStage::InstallingApp,
        ensures
            *final(self) == (Launch { stage, ..*old(self) }),
            is_request_of(action, *final(self)),
    {
        self.stage = stage;
        match stage {
            LaunchStage::CreatingKeystoreDir => LaunchAction::EnsureDirectory(
                self.keystore_dir.clone(),
            ),
            LaunchStage::CreatingConductorDir => LaunchAction::EnsureDirectory(
                self.conductor_dir.clone(),
            ),
            LaunchStage::ProbingKeystore => LaunchAction::ProbeKeystoreConfig(
                self.keystore_config_path.clone(),
            ),
            LaunchStage::InitializingKeystore => LaunchAction::InitializeKeystore(
                self.keystore_dir.clone(),
            ),
            LaunchStage::StartingKeystore => LaunchAction::StartKeystore(self.keystore_dir.clone()),
            LaunchStage::ShorteningSocketPath => LaunchAction::ShortenSocketPath(
                self.keystore_dir.clone(),
            ),
            LaunchStage::RestartingKeystore => LaunchAction::StartKeystore(
                self.keystore_dir.clone(),
            ),
            LaunchStage::ConnectingKeystoreClient => LaunchAction::ConnectKeystoreClient(
                self.keystore_url.clone(),
            ),
            LaunchStage::PickingAdminPort => LaunchAction::PickPort,
            LaunchStage::WritingConductorConfig => LaunchAction::WriteConductorConfig {
                path: self.conductor_config_path.clone(),
                settings: ConductorSettings {
                    data_root_path: self.conductor_dir.clone(),
                    keystore_connection_url: self.keystore_url.clone(),
                    admin_port: self.admin_port,
                    bootstrap_service: String::from_str(BOOTSTRAP_SERVER),
                    signal_url: String::from_str(SIGNALING_SERVER),
                },
            },
            LaunchStage::SpawningConductor => LaunchAction::SpawnConductor {
                binary: self.conductor_binary.clone(),
                config_path: self.conductor_config_path.clone(),
            },
            LaunchStage::Settling => LaunchAction::Wait(SETTLE_MILLIS),
            LaunchStage::ConnectingAdmin => LaunchAction::ConnectAdmin {
                port: self.admin_port,
                delay_millis: if self.retry.attempts <= 1 {
                    0
                } else {
                    self.retry.policy.delay_millis
                },
            },
            LaunchStage::ListingAppInterfaces => LaunchAction::ListAppInterfaces,
            LaunchStage::PickingAppPort => LaunchAction::PickPort,
            LaunchStage::AttachingAppInterface => LaunchAction::AttachAppInterface {
                port: self.app_port,
                installed_app_id: self.installer.app_id.clone(),
            },
            LaunchStage::ReadingNetworkSeed => LaunchAction::ReadNetworkSeed(
                self.network_seed_path.clone(),
            ),
            LaunchStage::Done => LaunchAction::Finish {
                app_port: self.app_port,
                admin_port: self.admin_port,
            },
            _ => LaunchAction::PickPort,
        }
    }

    /// Ends the launch because the request of the stage failed with the
    /// diagnostic `reason`.
    fn fail_stage(&mut self, reason: String) -> (action: LaunchAction)
        ensures
            *final(self) == (Launch { stage: LaunchStage::Failed, ..*old(self) }),
            action matches LaunchAction::Abort(e) && is_error_of(e, old(self).stage, reason@),
    {
        let error = match self.stage {
            LaunchStage::CreatingKeystoreDir | LaunchStage::CreatingConductorDir => {
                AppError::IoError(reason)
            },
            LaunchStage::InitializingKeystore | LaunchStage::StartingKeystore
            | LaunchStage::RestartingKeystore => AppError::LairKeystoreError(
                LairKeystoreError::LaunchChildError(LaunchChildError::FailedToExecute(reason)),
            ),
            LaunchStage::ShorteningSocketPath => AppError::LairKeystoreError(
                LairKeystoreError::ErrorCreatingSymLink(reason),
            ),
            LaunchStage::ConnectingKeystoreClient => AppError::LairKeystoreError(
                LairKeystoreError::SpawnMetaLairClientError(reason),
            ),
            LaunchStage::WritingConductorConfig => AppError::LaunchHolochainError(
                LaunchHolochainError::FailedToOverwriteConfig(reason),
            ),
            LaunchStage::SpawningConductor => AppError::LaunchHolochainError(
                LaunchHolochainError::SidecarBinaryCommandError(reason),
            ),
            LaunchStage::ConnectingAdmin => AppError::LaunchHolochainError(
                LaunchHolochainError::CouldNotConnectToConductor(reason),
            ),
            LaunchStage::ListingAppInterfaces => {
                let mut text = String::from_str("Could not list app interfaces: ");
                text.append(reason.as_str());
                AppError::LaunchHolochainError(
                    LaunchHolochainError::CouldNotConnectToConductor(text),
                )
            },
            LaunchStage::AttachingAppInterface => AppError::LaunchHolochainError(
                LaunchHolochainError::CouldNotConnectToConductor(
                    String::from_str("Could not attach app interface"),
                ),
            ),
            _ => AppError::LaunchHolochainError(
                LaunchHolochainError::ImpossibleError(
                    String::from_str("Unexpected answer during the launch"),
                ),
            ),
        };
        self.fail(error)
    }

    /// Hands `event` to the installation and goes by what it asks for.
    fn install(&mut self, event: InstallEvent) -> (action: LaunchAction)
        requires
            old(self).stage == LaunchStage::InstallingApp,
        ensures
            final(self).installer.app_id@ == old(self).installer.app_id@,
            opt_text(final(self).installer.network_seed) == opt_text(
                old(self).installer.network_seed,
            ),
            final(self).installer.stage == crate::install::next_stage(
                old(self).installer.stage,
                old(self).installer.app_id@,
                event,
            ),
            final(self).stage == (match final(self).installer.stage {
                InstallStage::Done => LaunchStage::Done,
                InstallStage::Failed => LaunchStage::Failed,
                _ => LaunchStage::InstallingApp,
            }),
            *final(self) == (Launch {
                stage: final(self).stage,
                installer: final(self).installer,
                ..*old(self)
            }),
            final(self).stage != LaunchStage::Failed ==> is_request_of(action, *final(self)),
            final(self).stage == LaunchStage::Failed ==> (action matches LaunchAction::Abort(e)
                && crate::install::is_failure_of(e, old(self).installer.stage, event)),
    {
        let asked = self.installer.on_event(event);
        match asked {
            InstallAction::Finish => {
                self.stage = LaunchStage::Done;
                LaunchAction::Finish { app_port: self.app_port, admin_port: self.admin_port }
            },
            InstallAction::Abort(error) => {
                self.stage = LaunchStage::Failed;
                LaunchAction::Abort(error)
            },
            other => LaunchAction::Install(other),
        }
    }

    /// Takes what came of the last request and says what to do next.
    pub fn on_event(&mut self, event: LaunchEvent) -> (action: LaunchAction)
        ensures
            final(self).stage == next_stage(*old(self), event),
            is_update_of(*final(self), *old(self), event),
            final(self).stage != LaunchStage::Failed ==> is_request_of(action, *final(self)),
            final(self).stage == LaunchStage::Failed ==> (action matches LaunchAction::Abort(e)
                && is_failure_of(e, *old(self), event)),
    {
        let stage = self.stage;
        match stage {
            LaunchStage::Done => {
                return self.advance(LaunchStage::Done);
            },
            LaunchStage::Failed => {
                return self.impossible("The launch has failed before");
            },
            _ => {},
        }
        match event {
            LaunchEvent::FailedWith(error) => {
                match stage {
                    LaunchStage::StartingKeystore => {
                        let text = error.message();
                        if path_too_long(self.socket_path_limited, text.as_str()) {
                            self.advance(LaunchStage::ShorteningSocketPath)
                        } else {
                            self.fail(error)
                        }
                    },
                    _ => self.fail(error),
                }
            },
            LaunchEvent::Failed(reason) => {
                match stage {
                    LaunchStage::StartingKeystore => {
                        if path_too_long(self.socket_path_limited, reason.as_str()) {
                            self.advance(LaunchStage::ShorteningSocketPath)
                        } else {
                            self.fail_stage(reason)
                        }
                    },
                    LaunchStage::ConnectingAdmin => {
                        match self.retry.on_outcome(Err(reason)) {
                            RetryDecision::GiveUp(error) => self.fail(
                                AppError::LaunchHolochainError(error),
                            ),
                            _ => self.advance(LaunchStage::ConnectingAdmin),
                        }
                    },
                    LaunchStage::InstallingApp => self.install(InstallEvent::Failed(reason)),
                    _ => self.fail_stage(reason),
                }
            },
            LaunchEvent::Completed => {
                match stage {
                    LaunchStage::CreatingKeystoreDir => self.advance(
                        LaunchStage::CreatingConductorDir,
                    ),
                    LaunchStage::CreatingConductorDir => self.advance(LaunchStage::ProbingKeystore),
                    LaunchStage::InitializingKeystore => self.advance(
                        LaunchStage::StartingKeystore,
                    ),
                    LaunchStage::ShorteningSocketPath => self.advance(
                        LaunchStage::RestartingKeystore,
                    ),
                    LaunchStage::ConnectingKeystoreClient => self.advance(
                        LaunchStage::PickingAdminPort,
                    ),
                    LaunchStage::WritingConductorConfig => self.advance(
                        LaunchStage::SpawningConductor,
                    ),
                    LaunchStage::SpawningConductor => self.advance(LaunchStage::Settling),
                    LaunchStage::Settling => {
                        self.retry = ConnectRetry::start(self.retry.policy);
                        self.advance(LaunchStage::ConnectingAdmin)
                    },
                    LaunchStage::ConnectingAdmin => self.advance(LaunchStage::ListingAppInterfaces),
                    LaunchStage::AttachingAppInterface => self.advance(
                        LaunchStage::ReadingNetworkSeed,
                    ),
                    LaunchStage::InstallingApp => self.install(InstallEvent::Completed),
                    _ => self.impossible("Unexpected answer during the launch"),
                }
            },
            LaunchEvent::KeystoreProbed(initialized) => {
                match stage {
                    LaunchStage::ProbingKeystore => {
                        if initialized {
                            self.advance(LaunchStage::StartingKeystore)
                        } else {
                            self.advance(LaunchStage::InitializingKeystore)
                        }
                    },
                    _ => self.impossible("Unexpected answer during the launch"),
                }
            },
            LaunchEvent::KeystoreStarted(url) => {
                match stage {
                    LaunchStage::StartingKeystore | LaunchStage::RestartingKeystore => {
                        self.keystore_url = url;
                        self.advance(LaunchStage::ConnectingKeystoreClient)
                    },
                    _ => self.impossible("Unexpected answer during the launch"),
                }
            },
            LaunchEvent::PortPicked(picked) => {
                match stage {
                    LaunchStage::PickingAdminPort => {
                        match picked {
                            Some(port) => {
                                self.admin_port = port;
                                self.advance(LaunchStage::WritingConductorConfig)
                            },
                            None => self.no_port("Cannot find any unused port"),
                        }
                    },
                    LaunchStage::PickingAppPort => {
                        match picked {
                            Some(port) => {
                                self.app_port = port;
                                self.advance(LaunchStage::AttachingAppInterface)
                            },
                            None => self.no_port("No ports free"),
                        }
                    },
                    _ => self.impossible("Unexpected answer during the launch"),
                }
            },
            LaunchEvent::AppInterfacesListed(ports) => {
                match stage {
                    LaunchStage::ListingAppInterfaces => {
                        if ports.len() > 0 {
                            self.app_port = ports[0];
                            self.advance(LaunchStage::ReadingNetworkSeed)
                        } else {
                            self.advance(LaunchStage::PickingAppPort)
                        }
                    },
                    _ => self.impossible("Unexpected answer during the launch"),
                }
            },
            LaunchEvent::NetworkSeedRead(seed) => {
                match stage {
                    LaunchStage::ReadingNetworkSeed => {
                        let fallback = match &self.default_seed {
                            Some(d) => Some(d.as_str()),
                            None => None,
                        };
                        let chosen = effective_network_seed(seed, fallback);
                        self.installer.network_seed = chosen;
                        self.installer.stage = InstallStage::ListingApps;
                        self.stage = LaunchStage::InstallingApp;
                        LaunchAction::Install(InstallAction::ListApps)
                    },
                    _ => self.impossible("Unexpected answer during the launch"),
                }
            },
            LaunchEvent::AppsListed(apps) => {
                match stage {
                    LaunchStage::InstallingApp => self.install(InstallEvent::AppsListed(apps)),
                    _ => self.impossible("Unexpected answer during the launch"),
                }
            },
        }
    }
}

/// The stage after the events `events`, one after the other, where only
/// the stage of `m` changes on the way.
pub open spec fn stage_after(m: Launch, events: Seq<LaunchEvent>) -> LaunchStage
    decreases events.len(),
{
    if events.len() == 0 {
        m.stage
    } else {
        next_stage(
            Launch { stage: stage_after(m, events.drop_last()), ..m },
            events.last(),
        )
    }
}

/// The short link is tried only for a socket path that is too long, on a
/// platform that limits it, and only once: the keystore that fails to
/// start after the link was made fails the launch, whatever the reason.
pub proof fn lemma_short_link_is_tried_once(m: Launch, event: LaunchEvent)
    ensures
        next_stage(m, event) == LaunchStage::ShorteningSocketPath ==> m.stage
            == LaunchStage::StartingKeystore && m.socket_path_limited && (match event {
            LaunchEvent::Failed(reason) => contains_text(reason@, "path must be shorter than"@),
            LaunchEvent::FailedWith(error) => contains_text(
                error.message_text(),
                "path must be shorter than"@,
            ),
            _ => false,
        }),
        m.stage == LaunchStage::RestartingKeystore && !(event is KeystoreStarted) ==> next_stage(
            m,
            event,
        ) == LaunchStage::Failed,
{
}

/// A conductor that already has an application interface keeps it: its
/// first port is the application's port, and no port is picked and no
/// interface attached.
pub proof fn lemma_existing_interface_is_reused(before: Launch, after: Launch, ports: Vec<u16>)
    requires
        before.stage == LaunchStage::ListingAppInterfaces,
        ports@.len() > 0,
        after.stage == next_stage(before, LaunchEvent::AppInterfacesListed(ports)),
        is_update_of(after, before, LaunchEvent::AppInterfacesListed(ports)),
    ensures
        after.stage == LaunchStage::ReadingNetworkSeed,
        after.app_port == ports@[0],
        after.admin_port == before.admin_port,
{
}

/// A launch that has ended stays as it ended, whatever is reported to it.
pub proof fn lemma_ends_are_final(m: Launch, events: Seq<LaunchEvent>)
    requires
        m.stage == LaunchStage::Done || m.stage == LaunchStage::Failed,
    ensures
        stage_after(m, events) == m.stage,
    decreases events.len(),
{
    if events.len() > 0 {
        lemma_ends_are_final(m, events.drop_last());
    }
}

/// A launch is done only through the installation: the stage before the
/// last step was the installation, and the installation ended well.
pub proof fn lemma_done_means_installed(m: Launch, event: LaunchEvent)
    requires
        m.stage != LaunchStage::Done,
        next_stage(m, event) == LaunchStage::Done,
    ensures
        m.stage == LaunchStage::InstallingApp,
        install_event(event) is Some,
        crate::install::next_stage(
            m.installer.stage,
            m.installer.app_id@,
            install_event(event)->Some_0,
        ) == InstallStage::Done,
{
}

/// How many stages a stage is from the end, at most.
pub open spec fn stage_rank(stage: LaunchStage) -> nat {
    match stage {
        LaunchStage::CreatingKeystoreDir => 18,
        LaunchStage::CreatingConductorDir => 17,
        LaunchStage::ProbingKeystore => 16,
        LaunchStage::InitializingKeystore => 15,
        LaunchStage::StartingKeystore => 14,
        LaunchStage::ShorteningSocketPath => 13,
        LaunchStage::RestartingKeystore => 12,
        LaunchStage::ConnectingKeystoreClient => 11,
        LaunchStage::PickingAdminPort => 10,
        LaunchStage::WritingConductorConfig => 9,
        LaunchStage::SpawningConductor => 8,
        LaunchStage::Settling => 7,
        LaunchStage::ConnectingAdmin => 6,
        LaunchStage::ListingAppInterfaces => 5,
        LaunchStage::PickingAppPort => 4,
        LaunchStage::AttachingAppInterface => 3,
        LaunchStage::ReadingNetworkSeed => 2,
        LaunchStage::InstallingApp => 1,
        LaunchStage::Done => 0,
        LaunchStage::Failed => 0,
    }
}

/// How many more requests the stage of `m` can make before the launch
/// moves on: the connection attempts that the retry still allows, and the
/// requests that the installation still has before it.
pub open spec fn requests_left_in_stage(m: Launch) -> int {
    match m.stage {
        LaunchStage::ConnectingAdmin => m.retry.policy.max_attempts - m.retry.attempts,
        LaunchStage::InstallingApp => install_rank(m.installer.stage) as int,
        _ => 0,
    }
}

/// A launch runs in one direction. Every event takes a launch that has
/// not ended to a later stage, or leaves it in its stage with fewer
/// requests left to make there; only the admin connection and the
/// installation stay in their stage at all. So the keystore's URL is known
/// before the conductor is configured, the admin port before the admin
/// connection, and the admin connection before the installation; no
/// stage is entered twice, and the admin connection is attempted no more
/// often than the retry allows.
pub proof fn lemma_launch_moves_forward(before: Launch, after: Launch, event: LaunchEvent)
    requires
        before.stage != LaunchStage::Done,
        before.stage != LaunchStage::Failed,
        after.stage == next_stage(before, event),
        is_update_of(after, before, event),
    ensures
        stage_rank(after.stage) < stage_rank(before.stage) || (after.stage == before.stage && 0
            <= requests_left_in_stage(after) < requests_left_in_stage(before)),
        after.stage == before.stage ==> before.stage == LaunchStage::ConnectingAdmin
            || before.stage == LaunchStage::InstallingApp,
{
}

} // verus!
