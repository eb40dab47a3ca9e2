use node_launcher::config::{
    default_network_seed, APP_ID, APP_NAME, BOOTSTRAP_SERVER, LAIR_KEYSTORE_VERSION, PASSWORD,
    SIGNALING_SERVER, WINDOW_TITLE,
};
use node_launcher::errors::{
    quote, AppError, InitializeConductorError, LairKeystoreError, LaunchChildError,
    LaunchHolochainError,
};

fn s(text: &str) -> String {
    text.to_string()
}

#[test]
fn quote_closes_the_backtick() {
    assert_eq!(quote("Unknown Error: `", "x"), "Unknown Error: `x`");
    assert_eq!(quote("", ""), "`");
}

#[test]
fn launch_child_error_messages() {
    assert_eq!(LaunchChildError::BinaryNotFound.message(), "Sidecar binary was not found");
    assert_eq!(
        LaunchChildError::FailedToExecute(s("x")).message(),
        "Failed to execute sidecar binary: `x`"
    );
}

#[test]
fn initialize_conductor_error_messages() {
    assert_eq!(InitializeConductorError::UnknownError(s("x")).message(), "Unknown Error: `x`");
    assert_eq!(
        InitializeConductorError::SqliteError(s("x")).message(),
        "Could not connect to the database of the conductor: `x`"
    );
    assert_eq!(
        InitializeConductorError::AddressAlreadyInUse(s("x")).message(),
        "Address already in use: `x`"
    );
}

#[test]
fn lair_keystore_error_messages() {
    assert_eq!(
        LairKeystoreError::LaunchChildError(LaunchChildError::BinaryNotFound).message(),
        "Failed to launch child: `Sidecar binary was not found`"
    );
    assert_eq!(
        LairKeystoreError::ErrorWritingPassword(s("x")).message(),
        "Failed to write the password: `x`"
    );
    assert_eq!(LairKeystoreError::IncorrectPassword.message(), "Incorrect password");
    assert_eq!(
        LairKeystoreError::ErrorCreatingLairClient(s("x")).message(),
        "Failed to create LairClient: `x`"
    );
    assert_eq!(
        LairKeystoreError::ErrorReadingLairConfig(s("x")).message(),
        "Failed to create temp dir: `x`"
    );
    assert_eq!(
        LairKeystoreError::ErrorWritingLairConfig(s("x")).message(),
        "Failed to read lair-keysstore-config.yaml: `x`"
    );
    assert_eq!(
        LairKeystoreError::ErrorCreatingSymLink(s("x")).message(),
        "Error creating a symlink of the lair directory: `x`"
    );
    assert_eq!(LairKeystoreError::OtherError(s("x")).message(), "Lair Keystore Error: `x`");
    assert_eq!(
        LairKeystoreError::SignZomeCallError(s("x")).message(),
        "Failed to sign zome call: `x`"
    );
    assert_eq!(
        LairKeystoreError::SpawnMetaLairClientError(s("x")).message(),
        "Failed to spawn MetaLairClient: `x`"
    );
}

#[test]
fn launch_holochain_error_messages() {
    assert_eq!(
        LaunchHolochainError::LaunchChildError(LaunchChildError::FailedToExecute(s("x")))
            .message(),
        "Failed to launch child: `Failed to execute sidecar binary: `x``"
    );
    assert_eq!(
        LaunchHolochainError::ErrorWritingPassword(s("x")).message(),
        "Failed to write the password: `x`"
    );
    assert_eq!(LaunchHolochainError::IoError(s("x")).message(), "Error with the filesystem: `x`");
    assert_eq!(
        LaunchHolochainError::CouldNotConnectToConductor(s("x")).message(),
        "Could not connect to the conductor: `x`"
    );
    assert_eq!(
        LaunchHolochainError::CouldNotInitializeConductor(
            InitializeConductorError::AddressAlreadyInUse(s("x"))
        )
        .message(),
        "Could not initialize conductor: `Address already in use: `x``"
    );
    assert_eq!(
        LaunchHolochainError::FailedToOverwriteConfig(s("x")).message(),
        "Failed to overwrite config: `x`"
    );
    assert_eq!(
        LaunchHolochainError::SidecarBinaryCommandError(s("x")).message(),
        "Failed to create sidecar binary command: `x`"
    );
    assert_eq!(LaunchHolochainError::ImpossibleError(s("x")).message(), "Impossible error: `x`");
}

#[test]
fn app_error_messages() {
    assert_eq!(AppError::FileSystemError(s("x")).message(), "Filesystem error: `x`");
    assert_eq!(AppError::AppletsUIServerError(s("x")).message(), "Applets UI server error: `x`");
    assert_eq!(AppError::NotRunning.message(), "Holochain is not running");
    assert_eq!(AppError::ConductorApiError(s("x")).message(), "ConductorApiError: `x`");
    assert_eq!(AppError::DatabaseError(s("x")).message(), "Database error: `x`");
    assert_eq!(
        AppError::SemVerError(s("x")).message(),
        "Failed to conver package version to breaking version string: `x`"
    );
    assert_eq!(AppError::AppBundleError(s("x")).message(), "x");
    assert_eq!(AppError::IoError(s("x")).message(), "x");
    assert_eq!(AppError::MrBundleError(s("x")).message(), "x");
    assert_eq!(AppError::ConductorError(s("x")).message(), "x");
    assert_eq!(AppError::TauriError(s("x")).message(), "x");
    assert_eq!(AppError::AdminWebsocketError(s("x")).message(), "Admin Websocket Error: `x`");
    assert_eq!(AppError::AppWebsocketError(s("x")).message(), "App Websocket Error: `x`");
    assert_eq!(AppError::SignZomeCallError(s("x")).message(), "Error signing zome call: `x`");
    assert_eq!(
        AppError::LairKeystoreError(LairKeystoreError::IncorrectPassword).message(),
        "Incorrect password"
    );
    assert_eq!(
        AppError::LaunchHolochainError(LaunchHolochainError::IoError(s("x"))).message(),
        "Error with the filesystem: `x`"
    );
}

#[test]
fn deployment_parameters() {
    assert_eq!(APP_NAME, "forum");
    assert_eq!(APP_ID, "forum");
    assert_eq!(WINDOW_TITLE, "forum");
    assert_eq!(PASSWORD, "pass");
    assert_eq!(SIGNALING_SERVER, "wss://sbd-0.main.infra.holo.host");
    assert_eq!(BOOTSTRAP_SERVER, "https://bootstrap.holo.host");
    assert_eq!(LAIR_KEYSTORE_VERSION, "0.4.5");
    assert_eq!(default_network_seed(), None);
}
