//! The directory layout of a profile: where its data, configuration, logs,
//! keystore and conductor state live, given the directories that the host
//! offers, the application's version and the profile's name.

use vstd::prelude::*;
use vstd::string::StringExecFns;
use crate::config::{
    ACTIVE_PROFILE_FILE, CONDUCTOR_CONFIG_FILE, DEFAULT_PROFILE, KEYSTORE_CONFIG_FILE,
    NETWORK_SEED_FILE,
};
use crate::errors::AppError;
use crate::paths::{disjoint, is_within, join_path, joined};
use crate::text::{contains_char, has_char, same_text, to_chars};
use crate::version::{breaking_app_version, lemma_compatibility_is_one_level, AppVersion};

verus! {

/// The name of a profile.
pub type Profile = String;

/// A profile name is valid unless it is the reserved default name or holds
/// a character that would break a path or a query string.
pub open spec fn is_valid_profile_name(name: Seq<char>) -> bool {
    &&& name != "default"@
    &&& !contains_char(name, '/')
    &&& !contains_char(name, '\\')
    &&& !contains_char(name, '?')
}

/// Checks a profile name that the user chose. A valid name passes; the
/// reserved name and a name with a forbidden character are each refused
/// with a message of their own, the reserved name first.
pub fn check_profile_name(name: &str) -> (r: Result<(), String>)
    ensures
        r is Ok <==> is_valid_profile_name(name@),
        name@ == "default"@ ==> r is Err && r->Err_0@
            == "error: the name 'default' is not allowed for a profile."@,
        name@ != "default"@ && !is_valid_profile_name(name@) ==> r is Err && r->Err_0@
            == "error: \"/\", \"\\\", and \"?\" are not allowed in profile names."@,
{
    let chars = to_chars(name);
    let reserved = to_chars(DEFAULT_PROFILE);
    if same_text(&chars, &reserved) {
        return Err(String::from_str("error: the name 'default' is not allowed for a profile."));
    }
    if has_char(&chars, '/') || has_char(&chars, '\\') || has_char(&chars, '?') {
        return Err(
            String::from_str("error: \"/\", \"\\\", and \"?\" are not allowed in profile names."),
        );
    }
    Ok(())
}

/// The profile to use at startup: the one that the pointer file names, or
/// the default profile where there is no readable pointer file.
pub fn active_profile_or_default(stored: Option<String>) -> (profile: Profile)
    ensures
        match stored {
            Some(p) => profile@ == p@,
            None => profile@ == "default"@,
        },
{
    match stored {
        Some(p) => p,
        None => String::from_str(DEFAULT_PROFILE),
    }
}

/// The profile to start with: the one that was given explicitly, which has
/// to pass the check of profile names, or without one the profile that
/// the pointer file names, or the default profile.
pub fn startup_profile(given: Option<String>, stored: Option<String>) -> (r: Result<
    Profile,
    String,
>)
    ensures
        match given {
            Some(name) => if is_valid_profile_name(name@) {
                r is Ok && r->Ok_0@ == name@
            } else if name@ == "default"@ {
                r is Err && r->Err_0@ == "error: the name 'default' is not allowed for a profile."@
            } else {
                r is Err && r->Err_0@
                    == "error: \"/\", \"\\\", and \"?\" are not allowed in profile names."@
            },
            None => r is Ok && r->Ok_0@ == (match stored {
                Some(p) => p@,
                None => "default"@,
            }),
        },
{
    match given {
        Some(name) => match check_profile_name(name.as_str()) {
            Ok(_) => Ok(name),
            Err(message) => Err(message),
        },
        None => Ok(active_profile_or_default(stored)),
    }
}

/// The network seed to install with: the profile's own where it has one,
/// else the deployment's, else none.
pub fn effective_network_seed(profile_seed: Option<String>, default_seed: Option<&str>) -> (seed:
    Option<String>)
    ensures
        match profile_seed {
            Some(s) => seed is Some && seed->Some_0@ == s@,
            None => match default_seed {
                Some(d) => seed is Some && seed->Some_0@ == d@,
                None => seed is None,
            },
        },
{
    match profile_seed {
        Some(s) => Some(s),
        None => match default_seed {
            Some(d) => Some(String::from_str(d)),
            None => None,
        },
    }
}

/// The directories of one profile of one application build.
#[derive(Debug, Clone, PartialEq, Eq)]
pub struct AppFileSystem {
    pub app_data_dir: String,
    pub profile_data_dir: String,
    pub profile_config_dir: String,
    pub profile_log_dir: String,
}

/// The layout `fs` is the one of the profile `profile` of a build with
/// the compatibility string `compat`, under the host's three directories.
pub open spec fn is_layout_of(
    fs: AppFileSystem,
    data_root: Seq<char>,
    config_root: Seq<char>,
    log_root: Seq<char>,
    compat: Seq<char>,
    profile: Seq<char>,
) -> bool {
    &&& fs.app_data_dir@ == joined(data_root, compat)
    &&& fs.profile_data_dir@ == joined(joined(data_root, compat), profile)
    &&& fs.profile_config_dir@ == joined(joined(config_root, compat), profile)
    &&& fs.profile_log_dir@ == joined(joined(log_root, compat), profile)
}

impl AppFileSystem {
    /// Resolves the layout of `profile` for the build `version`. Each of
    /// the host's directories is `None` where the host could not name it;
    /// the first one missing, in the order data, configuration, logs,
    /// decides the error.
    pub fn new(
        data_root: Option<&str>,
        config_root: Option<&str>,
        log_root: Option<&str>,
        version: &AppVersion,
        profile: &str,
    ) -> (r: Result<AppFileSystem, AppError>)
        ensures
            r is Ok <==> data_root is Some && config_root is Some && log_root is Some,
            r matches Ok(fs) ==> is_layout_of(
                fs,
                data_root->Some_0@,
                config_root->Some_0@,
                log_root->Some_0@,
                version.compatibility(),
                profile@,
            ),
            data_root is None || config_root is None ==> (r matches Err(
                AppError::FileSystemError(m),
            ) && m@ == "Could not resolve the data dir for this app"@),
            data_root is Some && config_root is Some && log_root is None ==> (r matches Err(
                AppError::FileSystemError(m),
            ) && m@ == "Could not resolve the log dir for this app"@),
    {
        let compat = match breaking_app_version(version) {
            Ok(c) => c,
            Err(e) => {
                return Err(e);
            },
        };
        let app_data_dir = match data_root {
            Some(root) => join_path(root, compat.as_str()),
            None => {
                return Err(
                    AppError::FileSystemError(
                        String::from_str("Could not resolve the data dir for this app"),
                    ),
                );
            },
        };
        let profile_data_dir = join_path(app_data_dir.as_str(), profile);
        let profile_config_dir = match config_root {
            Some(root) => {
                let versioned = join_path(root, compat.as_str());
                join_path(versioned.as_str(), profile)
            },
            None => {
                return Err(
                    AppError::FileSystemError(
                        String::from_str("Could not resolve the data dir for this app"),
                    ),
                );
            },
        };
        let profile_log_dir = match log_root {
            Some(root) => {
                let versioned = join_path(root, compat.as_str());
                join_path(versioned.as_str(), profile)
            },
            None => {
                return Err(
                    AppError::FileSystemError(
                        String::from_str("Could not resolve the log dir for this app"),
                    ),
                );
            },
        };
        Ok(AppFileSystem { app_data_dir, profile_data_dir, profile_config_dir, profile_log_dir })
    }

    /// The directory of the keystore.
    pub fn keystore_dir(&self) -> (dir: String)
        ensures
            dir@ == joined(self.profile_data_dir@, "keystore"@),
    {
        join_path(self.profile_data_dir.as_str(), "keystore")
    }

    /// The directory of the keystore.
    pub fn keystore_path(&self) -> (dir: String)
        ensures
            dir@ == joined(self.profile_data_dir@, "keystore"@),
    {
        self.keystore_dir()
    }

    /// The keystore's configuration file; the keystore has been initialized
    /// when this file exists.
    pub fn keystore_config_path(&self) -> (path: String)
        ensures
            path@ == joined(
                joined(self.profile_data_dir@, "keystore"@),
                "lair-keystore-config.yaml"@,
            ),
    {
        let dir = self.keystore_dir();
        join_path(dir.as_str(), KEYSTORE_CONFIG_FILE)
    }

    /// Whether the keystore has been initialized: it has been when its
    /// configuration file exists. `probe` says of a path whether a file is
    /// there; it is asked once, about the keystore's configuration file,
    /// and its answer is the result.
    pub fn keystore_initialized<F: Fn(String) -> bool>(&self, probe: F) -> (initialized: bool)
        requires
            forall|path: String| call_requires(probe, (path,)),
        ensures
            exists|path: String|
                path@ == joined(
                    joined(self.profile_data_dir@, "keystore"@),
                    "lair-keystore-config.yaml"@,
                ) && call_ensures(probe, (path,), initialized),
    {
        let path = self.keystore_config_path();
        let initialized = probe(path);
        proof {
            assert(path@ == joined(
                joined(self.profile_data_dir@, "keystore"@),
                "lair-keystore-config.yaml"@,
            ) && call_ensures(probe, (path,), initialized));
        }
        initialized
    }

    /// The directory of the conductor's state.
    pub fn conductor_dir(&self) -> (dir: String)
        ensures
            dir@ == joined(self.profile_data_dir@, "conductor"@),
    {
        join_path(self.profile_data_dir.as_str(), "conductor")
    }

    /// The directory of the conductor's state.
    pub fn conductor_path(&self) -> (dir: String)
        ensures
            dir@ == joined(self.profile_data_dir@, "conductor"@),
    {
        self.conductor_dir()
    }

    /// The conductor's configuration file.
    pub fn conductor_config_path(&self) -> (path: String)
        ensures
            path@ == joined(
                joined(self.profile_data_dir@, "conductor"@),
                "conductor-config.yaml"@,
            ),
    {
        let dir = self.conductor_dir();
        join_path(dir.as_str(), CONDUCTOR_CONFIG_FILE)
    }

    /// The file that records the active profile.
    pub fn active_profile_path(&self) -> (path: String)
        ensures
            path@ == joined(self.app_data_dir@, ".activeProfile"@),
    {
        join_path(self.app_data_dir.as_str(), ACTIVE_PROFILE_FILE)
    }

    /// The file that holds this profile's network seed, if it has one.
    pub fn network_seed_path(&self) -> (path: String)
        ensures
            path@ == joined(self.profile_data_dir@, ".networkSeed"@),
    {
        join_path(self.profile_data_dir.as_str(), NETWORK_SEED_FILE)
    }

    /// The log file of the application `app_id` for this profile.
    pub fn log_file_path(&self, app_id: &str) -> (path: String)
        ensures
            path@ == joined(self.profile_log_dir@, app_id@ + ".log"@),
    {
        let mut name = String::from_str(app_id);
        name.append(".log");
        join_path(self.profile_log_dir.as_str(), name.as_str())
    }

    /// The data directory of the profile `profile` of this build.
    pub fn data_dir_of(&self, profile: &str) -> (dir: String)
        ensures
            dir@ == joined(self.app_data_dir@, profile@),
    {
        join_path(self.app_data_dir.as_str(), profile)
    }
}

/// One entry of a directory listing: its name, and whether it is a
/// directory, where that could be found out.
#[derive(Debug, Clone, PartialEq, Eq)]
pub struct ListedEntry {
    pub name: String,
    pub is_dir: Option<bool>,
}

/// The names among `entries` that are known to be directories, in order.
pub open spec fn directory_names(entries: Seq<ListedEntry>) -> Seq<Seq<char>>
    decreases entries.len(),
{
    if entries.len() == 0 {
        Seq::empty()
    } else if entries.last().is_dir == Some(true) {
        directory_names(entries.drop_last()).push(entries.last().name@)
    } else {
        directory_names(entries.drop_last())
    }
}

/// The profiles that exist, given the listing of the data root: each
/// directory in it is a profile.
pub fn existing_profiles(entries: &Vec<ListedEntry>) -> (profiles: Vec<Profile>)
    ensures
        profiles@.len() == directory_names(entries@).len(),
        forall|i: int|
            0 <= i < profiles@.len() ==> (#[trigger] profiles@[i])@ == directory_names(
                entries@,
            )[i],
{
    let mut profiles: Vec<Profile> = Vec::new();
    let mut i: usize = 0;
    while i < entries.len()
        invariant
            i <= entries.len(),
            profiles@.len() == directory_names(entries@.subrange(0, i as int)).len(),
            forall|k: int|
                0 <= k < profiles@.len() ==> (#[trigger] profiles@[k])@ == directory_names(
                    entries@.subrange(0, i as int),
                )[k],
        decreases entries.len() - i,
    {
        let ghost before = entries@.subrange(0, i as int);
        let ghost after = entries@.subrange(0, i + 1);
        assert(after.drop_last() =~= before);
        assert(after.last() == entries@[i as int]);
        match entries[i].is_dir {
            Some(true) => {
                profiles.push(entries[i].name.clone());
            },
            _ => {},
        }
        i += 1;
    }
    assert(entries@.subrange(0, entries.len() as int) =~= entries@);
    profiles
}

/// Adjoining a single non-empty level appends it after a fixed prefix.
proof fn lemma_joined_level(base: Seq<char>, level: Seq<char>) -> (prefix: Seq<char>)
    requires
        level.len() > 0,
        !contains_char(level, '/'),
    ensures
        joined(base, level) == prefix + level,
        prefix == joined(base, Seq::empty()),
{
    assert(level[0] != '/');
    let prefix = joined(base, Seq::empty());
    assert(joined(base, level) =~= prefix + level);
    prefix
}

/// Two different single levels under one directory are disjoint: neither
/// is the other, and neither lies below the other.
pub proof fn lemma_levels_disjoint(base: Seq<char>, a: Seq<char>, b: Seq<char>)
    requires
        a != b,
        a.len() > 0,
        b.len() > 0,
        !contains_char(a, '/'),
        !contains_char(b, '/'),
    ensures
        disjoint(joined(base, a), joined(base, b)),
{
    let p = lemma_joined_level(base, a);
    lemma_joined_level(base, b);
    lemma_not_within(p, a, b);
    lemma_not_within(p, b, a);
}

/// A single level under a prefix is neither another one nor below it.
proof fn lemma_not_within(p: Seq<char>, a: Seq<char>, b: Seq<char>)
    requires
        a != b,
        a.len() > 0,
        b.len() > 0,
        !contains_char(a, '/'),
        !contains_char(b, '/'),
    ensures
        !is_within(p + a, p + b),
{
    let inner = p + a;
    let outer = p + b;
    if inner == outer {
        assert(a =~= inner.subrange(p.len() as int, inner.len() as int));
        assert(b =~= outer.subrange(p.len() as int, outer.len() as int));
    }
    if outer.len() < inner.len() {
        assert(outer.last() == b[b.len() - 1]);
        assert(inner[outer.len() as int] == a[b.len() as int]);
    }
}

/// Builds whose compatibility strings differ never share a data root:
/// under the same host directory their data roots are disjoint.
pub proof fn lemma_data_roots_disjoint(
    a: AppFileSystem,
    b: AppFileSystem,
    data_root: Seq<char>,
    config_root: Seq<char>,
    log_root: Seq<char>,
    version_a: AppVersion,
    version_b: AppVersion,
    profile_a: Seq<char>,
    profile_b: Seq<char>,
)
    requires
        version_a.wf(),
        version_b.wf(),
        version_a.compatibility() != version_b.compatibility(),
        is_layout_of(a, data_root, config_root, log_root, version_a.compatibility(), profile_a),
        is_layout_of(b, data_root, config_root, log_root, version_b.compatibility(), profile_b),
    ensures
        disjoint(a.app_data_dir@, b.app_data_dir@),
{
    lemma_compatibility_is_one_level(version_a);
    lemma_compatibility_is_one_level(version_b);
    lemma_levels_disjoint(data_root, version_a.compatibility(), version_b.compatibility());
}

/// A directory two levels down is the prefix of the first level, the two
/// levels, and a separator between them.
proof fn lemma_joined_two_levels(base: Seq<char>, level: Seq<char>, name: Seq<char>) -> (prefix:
    Seq<char>)
    requires
        level.len() > 0,
        !contains_char(level, '/'),
        !contains_char(name, '/'),
    ensures
        joined(joined(base, level), name) == prefix + level + seq!['/'] + name,
        prefix == joined(base, Seq::empty()),
{
    let prefix = lemma_joined_level(base, level);
    let first = prefix + level;
    assert(first.last() == level.last());
    if name.len() > 0 {
        assert(name[0] != '/');
    }
    assert(joined(first, name) =~= prefix + level + seq!['/'] + name);
    prefix
}

/// A directory under one single level is neither a directory under another
/// level nor below one.
proof fn lemma_two_levels_not_within(
    p: Seq<char>,
    a: Seq<char>,
    b: Seq<char>,
    name_a: Seq<char>,
    name_b: Seq<char>,
)
    requires
        a != b,
        !contains_char(a, '/'),
        !contains_char(b, '/'),
    ensures
        !is_within(p + a + seq!['/'] + name_a, p + b + seq!['/'] + name_b),
{
    let x = p + a + seq!['/'] + name_a;
    let y = p + b + seq!['/'] + name_b;
    if is_within(x, y) {
        assert forall|j: int| 0 <= j < y.len() implies x[j] == y[j] by {
            if x != y {
                assert(x.subrange(0, y.len() as int)[j] == x[j]);
            }
        }
        let at_a = (p.len() + a.len()) as int;
        let at_b = (p.len() + b.len()) as int;
        assert(x[at_a] == '/');
        assert(y[at_b] == '/');
        if at_b < at_a {
            assert(x[at_b] == a[at_b - p.len()]);
        }
        if at_a < at_b {
            assert(y[at_a] == b[at_a - p.len()]);
        }
        assert forall|j: int| 0 <= j < a.len() implies a[j] == b[j] by {
            assert(x[p.len() + j] == a[j]);
            assert(y[p.len() + j] == b[j]);
        }
        assert(a =~= b);
    }
}

/// Under two different single levels of one directory, no two directories
/// share anything: neither is the other, and neither lies below the other.
pub proof fn lemma_below_levels_disjoint(
    base: Seq<char>,
    a: Seq<char>,
    b: Seq<char>,
    name_a: Seq<char>,
    name_b: Seq<char>,
)
    requires
        a != b,
        a.len() > 0,
        b.len() > 0,
        !contains_char(a, '/'),
        !contains_char(b, '/'),
        !contains_char(name_a, '/'),
        !contains_char(name_b, '/'),
    ensures
        disjoint(joined(joined(base, a), name_a), joined(joined(base, b), name_b)),
{
    let p = lemma_joined_two_levels(base, a, name_a);
    lemma_joined_two_levels(base, b, name_b);
    lemma_two_levels_not_within(p, a, b, name_a, name_b);
    lemma_two_levels_not_within(p, b, a, name_b, name_a);
}

/// Builds whose compatibility strings differ share no profile directory:
/// the data, configuration and log directories of any profile of the one
/// are disjoint from those of any profile of the other.
pub proof fn lemma_profile_dirs_disjoint(
    a: AppFileSystem,
    b: AppFileSystem,
    data_root: Seq<char>,
    config_root: Seq<char>,
    log_root: Seq<char>,
    version_a: AppVersion,
    version_b: AppVersion,
    profile_a: Seq<char>,
    profile_b: Seq<char>,
)
    requires
        version_a.wf(),
        version_b.wf(),
        version_a.compatibility() != version_b.compatibility(),
        !contains_char(profile_a, '/'),
        !contains_char(profile_b, '/'),
        is_layout_of(a, data_root, config_root, log_root, version_a.compatibility(), profile_a),
        is_layout_of(b, data_root, config_root, log_root, version_b.compatibility(), profile_b),
    ensures
        disjoint(a.profile_data_dir@, b.profile_data_dir@),
        disjoint(a.profile_config_dir@, b.profile_config_dir@),
        disjoint(a.profile_log_dir@, b.profile_log_dir@),
{
    lemma_compatibility_is_one_level(version_a);
    lemma_compatibility_is_one_level(version_b);
    let ca = version_a.compatibility();
    let cb = version_b.compatibility();
    lemma_below_levels_disjoint(data_root, ca, cb, profile_a, profile_b);
    lemma_below_levels_disjoint(config_root, ca, cb, profile_a, profile_b);
    lemma_below_levels_disjoint(log_root, ca, cb, profile_a, profile_b);
}

/// Resolving a layout is repeatable: two layouts resolved from the same
/// directories, compatibility string and profile name the same paths.
pub proof fn lemma_layout_is_determined(
    a: AppFileSystem,
    b: AppFileSystem,
    data_root: Seq<char>,
    config_root: Seq<char>,
    log_root: Seq<char>,
    compat: Seq<char>,
    profile: Seq<char>,
)
    requires
        is_layout_of(a, data_root, config_root, log_root, compat, profile),
        is_layout_of(b, data_root, config_root, log_root, compat, profile),
    ensures
        a.app_data_dir@ == b.app_data_dir@,
        a.profile_data_dir@ == b.profile_data_dir@,
        a.profile_config_dir@ == b.profile_config_dir@,
        a.profile_log_dir@ == b.profile_log_dir@,
{
}

} // verus!
