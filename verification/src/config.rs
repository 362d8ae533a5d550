//! Application configuration: the settings, their safe defaults, and the
//! decision of how to treat whatever is found on disk.
//!
//! The defaults are locked down for a local-only server: listen on
//! loopback only, require login. Reading and writing the file, and the
//! JSON around it, happen outside this crate; the decision of whether the
//! file can be used as it is, must be created, or must be replaced, is
//! made here from plain values.

use vstd::prelude::*;

verus! {

/// The current configuration schema version.
pub const DEFAULT_CONFIG_VERSION: usize = 1;

/// Where the server listens.
pub struct NetworkConfig {
    pub interface: String,
    pub port: u16,
}

/// Whether clients must log in.
pub struct AuthConfig {
    pub require_login: bool,
}

/// How long logs are kept, in seconds.
#[derive(Clone, Copy, PartialEq, Eq, Structural, Debug)]
pub struct LogConfig {
    pub keep_for_secs: u64,
}

/// The whole configuration, versioned for upgrades.
pub struct Config {
    pub version: usize,
    pub logs: LogConfig,
    pub network: NetworkConfig,
    pub auth: AuthConfig,
}

impl Default for AuthConfig {
    /// Login required by default.
    fn default() -> (r: Self)
        ensures
            r.require_login == true,
    {
        AuthConfig { require_login: true }
    }
}

impl Default for NetworkConfig {
    /// Loopback only by default: not reachable from outside the machine.
    fn default() -> (r: Self)
        ensures
            r.interface@ == "127.0.0.1"@,
            r.port == 8080,
    {
        NetworkConfig { interface: "127.0.0.1".to_owned(), port: 8080 }
    }
}

impl Default for LogConfig {
    /// Keep logs for one week.
    fn default() -> (r: Self)
        ensures
            r.keep_for_secs == 60 * 60 * 24 * 7,
    {
        LogConfig { keep_for_secs: 60 * 60 * 24 * 7 }
    }
}

impl Default for Config {
    fn default() -> (r: Self)
        ensures
            r.version == DEFAULT_CONFIG_VERSION,
            r.logs.keep_for_secs == 60 * 60 * 24 * 7,
            r.network.interface@ == "127.0.0.1"@,
            r.network.port == 8080,
            r.auth.require_login == true,
    {
        Config {
            version: DEFAULT_CONFIG_VERSION,
            logs: LogConfig::default(),
            network: NetworkConfig::default(),
            auth: AuthConfig::default(),
        }
    }
}

/// What to do with the configuration file as found on disk.
#[derive(Clone, Copy, PartialEq, Eq, Structural, Debug)]
pub enum ConfigLoadAction {
    /// No file: write the default configuration and use it.
    CreateDefault,
    /// The file carries the current version: parse it as the current
    /// schema.
    ParseCurrent,
    /// The file carries another version, or none: replace it with the
    /// default configuration and use that.
    RewriteDefault,
}

/// Handles configuration loading, versioning and upgrades.
pub struct ConfigMan {}

impl ConfigMan {
    pub fn new() -> Self {
        ConfigMan {  }
    }

    /// Decide how to treat the configuration file: `file_exists` is
    /// whether it is there at all, `version` the version number found in
    /// it, if any. A present file is used as it stands exactly when it
    /// names the current version; anything else is replaced by the
    /// default.
    pub fn load_action(file_exists: bool, version: Option<usize>) -> (r: ConfigLoadAction)
        ensures
            !file_exists ==> r is CreateDefault,
            file_exists && version == Some(DEFAULT_CONFIG_VERSION) ==> r is ParseCurrent,
            file_exists && version != Some(DEFAULT_CONFIG_VERSION) ==> r is RewriteDefault,
    {
        if !file_exists {
            ConfigLoadAction::CreateDefault
        } else {
            match version {
                Some(v) if v == DEFAULT_CONFIG_VERSION => ConfigLoadAction::ParseCurrent,
                _ => ConfigLoadAction::RewriteDefault,
            }
        }
    }
}

/// One step of a configuration upgrade: from one schema version range to
/// a target version.
pub trait ConfigUpdater {
    /// The schema this updater reads.
    type OldConfig;

    /// The schema this updater produces.
    type NewConfig;

    /// The lowest version this updater accepts.
    fn min_version(&self) -> u32;

    /// The highest version this updater accepts.
    fn max_version(&self) -> u32;

    /// The version this updater upgrades to.
    fn target_version(&self) -> u32;

    /// Carry a configuration over to the new schema.
    fn upgrade(&self, old_config: Self::OldConfig) -> Self::NewConfig;
}

/// A chain of updaters applied in order, built up as nested pairs and
/// ending in the unit type.
pub trait UpgradeChain<Source, Target> {
    fn upgrade_chain(&self, source: Source) -> Target;
}

/// The empty chain upgrades nothing: source and target schemas coincide.
impl<T> UpgradeChain<T, T> for () {
    fn upgrade_chain(&self, source: T) -> T {
        source
    }
}

/// A non-empty chain applies its first updater, then the rest of the
/// chain.
impl<U, Tail, Source, Mid, Target> UpgradeChain<Source, Target> for (U, Tail) where
    U: ConfigUpdater<OldConfig = Source, NewConfig = Mid>,
    Tail: UpgradeChain<Mid, Target>,
 {
    fn upgrade_chain(&self, source: Source) -> Target {
        let mid = self.0.upgrade(source);
        self.1.upgrade_chain(mid)
    }
}

} // verus!
