//! The fixed parameters of this deployment.

use vstd::prelude::*;

verus! {

/// Name of the application, as shown to the user.
pub const APP_NAME: &'static str = "forum";

/// Identity under which the application is installed in the conductor.
pub const APP_ID: &'static str = "forum";

/// Title of the main window.
pub const WINDOW_TITLE: &'static str = "forum";

/// Passphrase of the keystore.
pub const PASSWORD: &'static str = "pass";

/// Signaling endpoint of the network transport.
pub const SIGNALING_SERVER: &'static str = "wss://sbd-0.main.infra.holo.host";

/// Bootstrap endpoint of the network.
pub const BOOTSTRAP_SERVER: &'static str = "https://bootstrap.holo.host";

/// Version of the keystore service that this deployment runs.
pub const LAIR_KEYSTORE_VERSION: &'static str = "0.4.5";

/// Name of the active-profile pointer file in the data root.
pub const ACTIVE_PROFILE_FILE: &'static str = ".activeProfile";

/// Name of the network seed override file in a profile's data directory.
pub const NETWORK_SEED_FILE: &'static str = ".networkSeed";

/// Name of the keystore's configuration file in the keystore directory.
pub const KEYSTORE_CONFIG_FILE: &'static str = "lair-keystore-config.yaml";

/// Name of the conductor's configuration file in the conductor directory.
pub const CONDUCTOR_CONFIG_FILE: &'static str = "conductor-config.yaml";

/// The profile that is in use where none was selected.
pub const DEFAULT_PROFILE: &'static str = "default";

/// The network seed of this deployment, where it has one of its own.
pub fn default_network_seed() -> (seed: Option<&'static str>)
    ensures
        seed is None,
{
    None
}

} // verus!
