use node_launcher::errors::{
    AppError, InitializeConductorError, LairKeystoreError, LaunchChildError, LaunchHolochainError,
};
use node_launcher::filesystem::AppFileSystem;
use node_launcher::install::InstallAction;
use node_launcher::launch::{
    conductor_binary_name, initialization_error, path_too_long, ConductorSettings, Launch,
    LaunchAction, LaunchEvent, LaunchStage,
};
use node_launcher::retry::RetryPolicy;
use node_launcher::version::AppVersion;

const KEYSTORE: &str = "/data/forum/0.2.x/alice/keystore";
const CONDUCTOR: &str = "/data/forum/0.2.x/alice/conductor";
const URL: &str = "unix:///data/forum/0.2.x/alice/keystore/socket?k=K";

fn begin(limited: bool, default_seed: Option<&str>) -> (Launch, LaunchAction) {
    let version = AppVersion::new(0, 2, 2, "", "").unwrap();
    let fs = AppFileSystem::new(
        Some("/data/forum"),
        Some("/config/forum"),
        Some("/logs/forum"),
        &version,
        "alice",
    )
    .unwrap();
    Launch::start(
        &fs,
        conductor_binary_name("0.3.2"),
        limited,
        default_seed.map(String::from),
        RetryPolicy::reference(),
    )
}

fn impossible(text: &str) -> LaunchAction {
    LaunchAction::Abort(AppError::LaunchHolochainError(LaunchHolochainError::ImpossibleError(
        text.to_string(),
    )))
}

/// Runs a launch up to the admin connection, with a keystore that is or is
/// not initialized yet.
fn up_to_admin_connection(initialized: bool) -> Launch {
    let (mut launch, first) = begin(true, None);
    assert_eq!(first, LaunchAction::EnsureDirectory(KEYSTORE.to_string()));
    assert_eq!(
        launch.on_event(LaunchEvent::Completed),
        LaunchAction::EnsureDirectory(CONDUCTOR.to_string())
    );
    assert_eq!(
        launch.on_event(LaunchEvent::Completed),
        LaunchAction::ProbeKeystoreConfig(format!("{}/lair-keystore-config.yaml", KEYSTORE))
    );
    if initialized {
        assert_eq!(
            launch.on_event(LaunchEvent::KeystoreProbed(true)),
            LaunchAction::StartKeystore(KEYSTORE.to_string())
        );
    } else {
        assert_eq!(
            launch.on_event(LaunchEvent::KeystoreProbed(false)),
            LaunchAction::InitializeKeystore(KEYSTORE.to_string())
        );
        assert_eq!(
            launch.on_event(LaunchEvent::Completed),
            LaunchAction::StartKeystore(KEYSTORE.to_string())
        );
    }
    assert_eq!(
        launch.on_event(LaunchEvent::KeystoreStarted(URL.to_string())),
        LaunchAction::ConnectKeystoreClient(URL.to_string())
    );
    assert_eq!(launch.on_event(LaunchEvent::Completed), LaunchAction::PickPort);
    assert_eq!(
        launch.on_event(LaunchEvent::PortPicked(Some(4001))),
        LaunchAction::WriteConductorConfig {
            path: format!("{}/conductor-config.yaml", CONDUCTOR),
            settings: ConductorSettings {
                data_root_path: CONDUCTOR.to_string(),
                keystore_connection_url: URL.to_string(),
                admin_port: 4001,
                bootstrap_service: "https://bootstrap.holo.host".to_string(),
                signal_url: "wss://sbd-0.main.infra.holo.host".to_string(),
            },
        }
    );
    assert_eq!(
        launch.on_event(LaunchEvent::Completed),
        LaunchAction::SpawnConductor {
            binary: "holochain-v0.3.2".to_string(),
            config_path: format!("{}/conductor-config.yaml", CONDUCTOR),
        }
    );
    assert_eq!(launch.on_event(LaunchEvent::Completed), LaunchAction::Wait(100));
    assert_eq!(
        launch.on_event(LaunchEvent::Completed),
        LaunchAction::ConnectAdmin { port: 4001, delay_millis: 0 }
    );
    assert_eq!(launch.stage, LaunchStage::ConnectingAdmin);
    launch
}

#[test]
fn fresh_profile_launch_installs_and_returns_both_ports() {
    let mut launch = up_to_admin_connection(false);
    assert_eq!(launch.on_event(LaunchEvent::Completed), LaunchAction::ListAppInterfaces);
    assert_eq!(
        launch.on_event(LaunchEvent::AppInterfacesListed(Vec::new())),
        LaunchAction::PickPort
    );
    assert_eq!(
        launch.on_event(LaunchEvent::PortPicked(Some(4002))),
        LaunchAction::AttachAppInterface { port: 4002, installed_app_id: "forum".to_string() }
    );
    assert_eq!(
        launch.on_event(LaunchEvent::Completed),
        LaunchAction::ReadNetworkSeed("/data/forum/0.2.x/alice/.networkSeed".to_string())
    );
    assert_eq!(
        launch.on_event(LaunchEvent::NetworkSeedRead(None)),
        LaunchAction::Install(InstallAction::ListApps)
    );
    assert_eq!(
        launch.on_event(LaunchEvent::AppsListed(Vec::new())),
        LaunchAction::Install(InstallAction::GenerateAgentKey)
    );
    assert_eq!(
        launch.on_event(LaunchEvent::Completed),
        LaunchAction::Install(InstallAction::DecodeBundle)
    );
    assert_eq!(
        launch.on_event(LaunchEvent::Completed),
        LaunchAction::Install(InstallAction::InstallApp {
            installed_app_id: "forum".to_string(),
            network_seed: None,
        })
    );
    assert_eq!(
        launch.on_event(LaunchEvent::Completed),
        LaunchAction::Install(InstallAction::EnableApp { installed_app_id: "forum".to_string() })
    );
    let last = launch.on_event(LaunchEvent::Completed);
    assert_eq!(last, LaunchAction::Finish { app_port: 4002, admin_port: 4001 });
    assert_eq!(launch.stage, LaunchStage::Done);
    assert_ne!(launch.app_port, launch.admin_port);
    assert_eq!(launch.on_event(LaunchEvent::Completed), last);
    assert_eq!(launch.stage, LaunchStage::Done);
}

#[test]
fn relaunch_reuses_the_application_interface() {
    let mut launch = up_to_admin_connection(true);
    assert_eq!(launch.on_event(LaunchEvent::Completed), LaunchAction::ListAppInterfaces);
    assert_eq!(
        launch.on_event(LaunchEvent::AppInterfacesListed(vec![5005, 5006])),
        LaunchAction::ReadNetworkSeed("/data/forum/0.2.x/alice/.networkSeed".to_string())
    );
    assert_eq!(launch.app_port, 5005);
    assert_eq!(
        launch.on_event(LaunchEvent::NetworkSeedRead(None)),
        LaunchAction::Install(InstallAction::ListApps)
    );
    assert_eq!(
        launch.on_event(LaunchEvent::AppsListed(vec!["forum".to_string()])),
        LaunchAction::Finish { app_port: 5005, admin_port: 4001 }
    );
    assert_eq!(launch.stage, LaunchStage::Done);
}

fn up_to_seed(default_seed: Option<&str>) -> Launch {
    let (mut launch, _) = begin(false, default_seed);
    launch.on_event(LaunchEvent::Completed);
    launch.on_event(LaunchEvent::Completed);
    launch.on_event(LaunchEvent::KeystoreProbed(true));
    launch.on_event(LaunchEvent::KeystoreStarted(URL.to_string()));
    launch.on_event(LaunchEvent::Completed);
    launch.on_event(LaunchEvent::PortPicked(Some(1)));
    launch.on_event(LaunchEvent::Completed);
    launch.on_event(LaunchEvent::Completed);
    launch.on_event(LaunchEvent::Completed);
    launch.on_event(LaunchEvent::Completed);
    launch.on_event(LaunchEvent::AppInterfacesListed(vec![2]));
    assert_eq!(launch.stage, LaunchStage::ReadingNetworkSeed);
    launch
}

fn install_request(mut launch: Launch) -> LaunchAction {
    launch.on_event(LaunchEvent::AppsListed(Vec::new()));
    launch.on_event(LaunchEvent::Completed);
    launch.on_event(LaunchEvent::Completed)
}

#[test]
fn profile_seed_overrides_the_default_seed() {
    let mut launch = up_to_seed(Some("deployment"));
    launch.on_event(LaunchEvent::NetworkSeedRead(Some("mine".to_string())));
    assert_eq!(
        install_request(launch),
        LaunchAction::Install(InstallAction::InstallApp {
            installed_app_id: "forum".to_string(),
            network_seed: Some("mine".to_string()),
        })
    );
}

#[test]
fn default_seed_is_used_without_a_profile_seed() {
    let mut launch = up_to_seed(Some("deployment"));
    launch.on_event(LaunchEvent::NetworkSeedRead(None));
    assert_eq!(
        install_request(launch),
        LaunchAction::Install(InstallAction::InstallApp {
            installed_app_id: "forum".to_string(),
            network_seed: Some("deployment".to_string()),
        })
    );
}

#[test]
fn admin_connection_is_attempted_three_times() {
    let mut launch = up_to_admin_connection(true);
    assert_eq!(
        launch.on_event(LaunchEvent::Failed("os error 111".to_string())),
        LaunchAction::ConnectAdmin { port: 4001, delay_millis: 5000 }
    );
    assert_eq!(
        launch.on_event(LaunchEvent::Failed("os error 111".to_string())),
        LaunchAction::ConnectAdmin { port: 4001, delay_millis: 5000 }
    );
    assert_eq!(
        launch.on_event(LaunchEvent::Failed("still refused".to_string())),
        LaunchAction::Abort(AppError::LaunchHolochainError(
            LaunchHolochainError::CouldNotConnectToConductor("still refused".to_string())
        ))
    );
    assert_eq!(launch.stage, LaunchStage::Failed);
    assert_eq!(launch.retry.attempts, 3);
}

#[test]
fn admin_connection_succeeds_on_a_later_attempt() {
    let mut launch = up_to_admin_connection(true);
    launch.on_event(LaunchEvent::Failed("os error 111".to_string()));
    assert_eq!(launch.on_event(LaunchEvent::Completed), LaunchAction::ListAppInterfaces);
}

fn at_keystore_start(limited: bool) -> Launch {
    let (mut launch, _) = begin(limited, None);
    launch.on_event(LaunchEvent::Completed);
    launch.on_event(LaunchEvent::Completed);
    launch.on_event(LaunchEvent::KeystoreProbed(true));
    assert_eq!(launch.stage, LaunchStage::StartingKeystore);
    launch
}

const TOO_LONG: &str = "invalid input: path must be shorter than SUN_LEN";

#[test]
fn too_long_socket_path_is_shortened_once() {
    let mut launch = at_keystore_start(true);
    assert_eq!(
        launch.on_event(LaunchEvent::Failed(TOO_LONG.to_string())),
        LaunchAction::ShortenSocketPath(KEYSTORE.to_string())
    );
    assert_eq!(
        launch.on_event(LaunchEvent::Completed),
        LaunchAction::StartKeystore(KEYSTORE.to_string())
    );
    assert_eq!(launch.stage, LaunchStage::RestartingKeystore);
    assert_eq!(
        launch.on_event(LaunchEvent::Failed(TOO_LONG.to_string())),
        LaunchAction::Abort(AppError::LairKeystoreError(LairKeystoreError::LaunchChildError(
            LaunchChildError::FailedToExecute(TOO_LONG.to_string())
        )))
    );
    assert_eq!(launch.stage, LaunchStage::Failed);
}

#[test]
fn shortened_socket_path_lets_the_launch_go_on() {
    let mut launch = at_keystore_start(true);
    launch.on_event(LaunchEvent::FailedWith(AppError::LairKeystoreError(
        LairKeystoreError::OtherError(TOO_LONG.to_string()),
    )));
    assert_eq!(launch.stage, LaunchStage::ShorteningSocketPath);
    launch.on_event(LaunchEvent::Completed);
    assert_eq!(
        launch.on_event(LaunchEvent::KeystoreStarted("unix:///tmp/lair.x/socket?k=K".to_string())),
        LaunchAction::ConnectKeystoreClient("unix:///tmp/lair.x/socket?k=K".to_string())
    );
}

#[test]
fn failed_shortening_is_fatal() {
    let mut launch = at_keystore_start(true);
    launch.on_event(LaunchEvent::Failed(TOO_LONG.to_string()));
    assert_eq!(
        launch.on_event(LaunchEvent::Failed("no temp dir".to_string())),
        LaunchAction::Abort(AppError::LairKeystoreError(LairKeystoreError::ErrorCreatingSymLink(
            "no temp dir".to_string()
        )))
    );
}

#[test]
fn other_keystore_failures_are_fatal_at_once() {
    let mut launch = at_keystore_start(true);
    assert_eq!(
        launch.on_event(LaunchEvent::Failed("permission denied".to_string())),
        LaunchAction::Abort(AppError::LairKeystoreError(LairKeystoreError::LaunchChildError(
            LaunchChildError::FailedToExecute("permission denied".to_string())
        )))
    );
    let mut launch = at_keystore_start(true);
    let error = AppError::LairKeystoreError(LairKeystoreError::IncorrectPassword);
    assert_eq!(
        launch.on_event(LaunchEvent::FailedWith(error.clone())),
        LaunchAction::Abort(error)
    );
}

#[test]
fn platforms_without_the_limit_never_shorten() {
    let mut launch = at_keystore_start(false);
    assert_eq!(
        launch.on_event(LaunchEvent::Failed(TOO_LONG.to_string())),
        LaunchAction::Abort(AppError::LairKeystoreError(LairKeystoreError::LaunchChildError(
            LaunchChildError::FailedToExecute(TOO_LONG.to_string())
        )))
    );
    assert!(path_too_long(true, TOO_LONG));
    assert!(!path_too_long(false, TOO_LONG));
    assert!(!path_too_long(true, "path too long"));
}

#[test]
fn no_free_port_is_fatal() {
    let (mut launch, _) = begin(true, None);
    launch.on_event(LaunchEvent::Completed);
    launch.on_event(LaunchEvent::Completed);
    launch.on_event(LaunchEvent::KeystoreProbed(true));
    launch.on_event(LaunchEvent::KeystoreStarted(URL.to_string()));
    launch.on_event(LaunchEvent::Completed);
    assert_eq!(
        launch.on_event(LaunchEvent::PortPicked(None)),
        LaunchAction::Abort(AppError::LaunchHolochainError(
            LaunchHolochainError::CouldNotInitializeConductor(
                InitializeConductorError::AddressAlreadyInUse(
                    "Cannot find any unused port".to_string()
                )
            )
        ))
    );
    let mut launch = up_to_admin_connection(true);
    launch.on_event(LaunchEvent::Completed);
    launch.on_event(LaunchEvent::AppInterfacesListed(Vec::new()));
    assert_eq!(
        launch.on_event(LaunchEvent::PortPicked(None)),
        LaunchAction::Abort(AppError::LaunchHolochainError(
            LaunchHolochainError::CouldNotInitializeConductor(
                InitializeConductorError::AddressAlreadyInUse("No ports free".to_string())
            )
        ))
    );
}

#[test]
fn each_stage_names_its_own_failure() {
    let (mut launch, _) = begin(true, None);
    assert_eq!(
        launch.on_event(LaunchEvent::Failed("read-only".to_string())),
        LaunchAction::Abort(AppError::IoError("read-only".to_string()))
    );

    let (mut launch, _) = begin(true, None);
    launch.on_event(LaunchEvent::Completed);
    launch.on_event(LaunchEvent::Completed);
    launch.on_event(LaunchEvent::KeystoreProbed(false));
    assert_eq!(
        launch.on_event(LaunchEvent::Failed("init".to_string())),
        LaunchAction::Abort(AppError::LairKeystoreError(LairKeystoreError::LaunchChildError(
            LaunchChildError::FailedToExecute("init".to_string())
        )))
    );

    let mut launch = at_keystore_start(true);
    launch.on_event(LaunchEvent::KeystoreStarted(URL.to_string()));
    assert_eq!(
        launch.on_event(LaunchEvent::Failed("client".to_string())),
        LaunchAction::Abort(AppError::LairKeystoreError(
            LairKeystoreError::SpawnMetaLairClientError("client".to_string())
        ))
    );

    let mut launch = at_keystore_start(true);
    launch.on_event(LaunchEvent::KeystoreStarted(URL.to_string()));
    launch.on_event(LaunchEvent::Completed);
    launch.on_event(LaunchEvent::PortPicked(Some(9)));
    assert_eq!(
        launch.on_event(LaunchEvent::Failed("disk full".to_string())),
        LaunchAction::Abort(AppError::LaunchHolochainError(
            LaunchHolochainError::FailedToOverwriteConfig("disk full".to_string())
        ))
    );

    let mut launch = at_keystore_start(true);
    launch.on_event(LaunchEvent::KeystoreStarted(URL.to_string()));
    launch.on_event(LaunchEvent::Completed);
    launch.on_event(LaunchEvent::PortPicked(Some(9)));
    launch.on_event(LaunchEvent::Completed);
    assert_eq!(
        launch.on_event(LaunchEvent::Failed("no sidecar".to_string())),
        LaunchAction::Abort(AppError::LaunchHolochainError(
            LaunchHolochainError::SidecarBinaryCommandError("no sidecar".to_string())
        ))
    );

    let mut launch = up_to_admin_connection(true);
    launch.on_event(LaunchEvent::Completed);
    assert_eq!(
        launch.on_event(LaunchEvent::Failed("Closed".to_string())),
        LaunchAction::Abort(AppError::LaunchHolochainError(
            LaunchHolochainError::CouldNotConnectToConductor(
                "Could not list app interfaces: Closed".to_string()
            )
        ))
    );

    let mut launch = up_to_admin_connection(true);
    launch.on_event(LaunchEvent::Completed);
    launch.on_event(LaunchEvent::AppInterfacesListed(Vec::new()));
    launch.on_event(LaunchEvent::PortPicked(Some(10)));
    assert_eq!(
        launch.on_event(LaunchEvent::Failed("Closed".to_string())),
        LaunchAction::Abort(AppError::LaunchHolochainError(
            LaunchHolochainError::CouldNotConnectToConductor(
                "Could not attach app interface".to_string()
            )
        ))
    );
}

#[test]
fn installation_failures_end_the_launch() {
    let mut launch = up_to_seed(None);
    launch.on_event(LaunchEvent::NetworkSeedRead(None));
    assert_eq!(
        launch.on_event(LaunchEvent::Failed("api".to_string())),
        LaunchAction::Abort(AppError::ConductorApiError("api".to_string()))
    );
    assert_eq!(launch.stage, LaunchStage::Failed);

    let mut launch = up_to_seed(None);
    launch.on_event(LaunchEvent::NetworkSeedRead(None));
    launch.on_event(LaunchEvent::AppsListed(Vec::new()));
    launch.on_event(LaunchEvent::Completed);
    assert_eq!(
        launch.on_event(LaunchEvent::Failed("bundle".to_string())),
        LaunchAction::Abort(AppError::AppBundleError("bundle".to_string()))
    );
}

#[test]
fn typed_failures_are_handed_on() {
    let (mut launch, _) = begin(true, None);
    launch.on_event(LaunchEvent::Completed);
    launch.on_event(LaunchEvent::Completed);
    launch.on_event(LaunchEvent::KeystoreProbed(false));
    let error = AppError::LairKeystoreError(LairKeystoreError::ErrorWritingPassword(
        "broken pipe".to_string(),
    ));
    assert_eq!(
        launch.on_event(LaunchEvent::FailedWith(error.clone())),
        LaunchAction::Abort(error)
    );
    assert_eq!(launch.stage, LaunchStage::Failed);
}

#[test]
fn unexpected_answers_fail_the_launch() {
    let (mut launch, _) = begin(true, None);
    assert_eq!(
        launch.on_event(LaunchEvent::KeystoreProbed(true)),
        impossible("Unexpected answer during the launch")
    );
    assert_eq!(launch.stage, LaunchStage::Failed);
    assert_eq!(
        launch.on_event(LaunchEvent::Completed),
        impossible("The launch has failed before")
    );
    assert_eq!(launch.stage, LaunchStage::Failed);

    let mut launch = up_to_admin_connection(true);
    assert_eq!(
        launch.on_event(LaunchEvent::PortPicked(Some(3))),
        impossible("Unexpected answer during the launch")
    );
    let mut launch = up_to_seed(None);
    assert_eq!(
        launch.on_event(LaunchEvent::AppsListed(vec!["forum".to_string()])),
        impossible("Unexpected answer during the launch")
    );
}

#[test]
fn conductor_binary_is_named_by_its_version() {
    assert_eq!(conductor_binary_name("0.3.2"), "holochain-v0.3.2");
    assert_eq!(conductor_binary_name(""), "holochain-v");
}

#[test]
fn address_in_use_is_told_apart() {
    assert_eq!(
        initialization_error("bind: Address already in use (os error 98)".to_string()),
        InitializeConductorError::AddressAlreadyInUse(
            "bind: Address already in use (os error 98)".to_string()
        )
    );
    assert_eq!(
        initialization_error("address already in use".to_string()),
        InitializeConductorError::UnknownError("address already in use".to_string())
    );
    assert_eq!(
        initialization_error(String::new()),
        InitializeConductorError::UnknownError(String::new())
    );
}
