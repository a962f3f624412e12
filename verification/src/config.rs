use vstd::prelude::*;

use crate::error::StartupError;

verus! {

broadcast use vstd::string::group_string_axioms;

/// Settings for the optional HTTP frontend service.
#[derive(Debug, Clone, PartialEq, Eq)]
pub struct HttpConfig {
    pub ip: String,
    pub port: u16,
}

impl HttpConfig {
    pub open spec fn is_default(self) -> bool {
        &&& self.ip@ == "0.0.0.0"@
        &&& self.port == 20789u16
    }
}

impl Default for HttpConfig {
    fn default() -> (r: Self)
        ensures
            r.is_default(),
    {
        HttpConfig { ip: "0.0.0.0".to_string(), port: 20789 }
    }
}

/// Settings for the optional local-filesystem content provider: the
/// directory it indexes.
#[derive(Debug, Clone, PartialEq, Eq)]
pub struct LocalProviderConfig {
    pub path: String,
}

/// Selects the one concrete library store implementation.
#[derive(Debug, Clone, PartialEq, Eq)]
pub enum LibraryConfig {
    /// An in-memory store with no failure mode.
    Memory,
    /// A persistent store opened against the given file path; opening it
    /// can fail, which is a fatal startup error.
    SQLite { path: String },
}

impl Default for LibraryConfig {
    fn default() -> (r: Self)
        ensures
            r is Memory,
    {
        LibraryConfig::Memory
    }
}

/// The closed set of player backend implementations compiled into this build.
#[derive(Debug, Clone, Copy, PartialEq, Eq)]
pub enum PlayerBackend {
    GStreamer,
}

/// One configured player: a unique name, whether it is the default player,
/// and the backend implementation to compose with the queueing strategy.
#[derive(Debug, Clone, PartialEq, Eq)]
pub struct PlayerBackendConfig {
    pub name: String,
    pub default: bool,
    pub backend_type: PlayerBackend,
}

/// Overrides for extension discovery: an optional directory that takes
/// precedence over the built-in candidate directories.
#[derive(Debug, Clone, PartialEq, Eq)]
pub struct ExtensionConfig {
    pub path: Option<String>,
}

impl Default for ExtensionConfig {
    fn default() -> (r: Self)
        ensures
            r.path is None,
    {
        ExtensionConfig { path: None }
    }
}

/// The root configuration record, after per-field defaults were applied.
#[derive(Debug, Clone, PartialEq, Eq)]
pub struct Config {
    pub http: Option<HttpConfig>,
    pub local: Option<LocalProviderConfig>,
    pub library: Option<LibraryConfig>,
    pub players: Vec<PlayerBackendConfig>,
    pub extensions: ExtensionConfig,
}

/// The single synthesized player entry used when the configuration does not
/// set any: one player named `"default"`, marked default, on the one
/// compiled-in backend.
pub open spec fn is_default_backend(players: Seq<PlayerBackendConfig>) -> bool {
    &&& players.len() == 1
    &&& players[0].name@ == "default"@
    &&& players[0].default == true
    &&& players[0].backend_type is GStreamer
}

impl Config {
    pub open spec fn is_default(self) -> bool {
        &&& self.http matches Some(h) && h.is_default()
        &&& self.local is None
        &&& self.library matches Some(l) && l is Memory
        &&& is_default_backend(self.players@)
        &&& self.extensions.path is None
    }
}

impl Default for Config {
    fn default() -> (r: Self)
        ensures
            r.is_default(),
    {
        Config {
            http: Some(HttpConfig::default()),
            local: None,
            library: Some(LibraryConfig::default()),
            players: default_backend(),
            extensions: ExtensionConfig::default(),
        }
    }
}

/// The player list synthesized when the configuration sets none.
pub fn default_backend() -> (r: Vec<PlayerBackendConfig>)
    ensures
        is_default_backend(r@),
{
    let config = PlayerBackendConfig {
        name: "default".to_string(),
        default: true,
        backend_type: PlayerBackend::GStreamer,
    };
    let mut players: Vec<PlayerBackendConfig> = Vec::new();
    players.push(config);
    players
}

/// The fields a configuration file set explicitly, before any per-field
/// default is applied: `None` means the field was absent from the file.
#[derive(Debug, Clone, PartialEq, Eq)]
pub struct RawConfig {
    pub http: Option<HttpConfig>,
    pub local: Option<LocalProviderConfig>,
    pub library: Option<LibraryConfig>,
    pub players: Option<Vec<PlayerBackendConfig>>,
    pub extensions: Option<ExtensionConfig>,
}

/// How a parsed file relates to the configuration built from it:
/// explicitly set fields are taken as they stand, absent ones take their
/// per-field schema default (an absent extension section means no override
/// path). The player list is special: a host needs at least one player, so
/// both an absent and an explicitly empty list synthesize the single
/// default player.
pub open spec fn from_raw_rel(raw: RawConfig, c: Config) -> bool {
    &&& c.http == raw.http
    &&& c.local == raw.local
    &&& c.library == raw.library
    &&& (match raw.players {
        Some(p) => if p.len() > 0 {
            c.players == p
        } else {
            is_default_backend(c.players@)
        },
        None => is_default_backend(c.players@),
    })
    &&& (raw.extensions matches Some(e) ==> c.extensions == e)
    &&& (raw.extensions is None ==> c.extensions.path is None)
}

/// How a configuration relates to its serialized form: every field is
/// written out explicitly.
pub open spec fn to_raw_rel(c: Config, raw: RawConfig) -> bool {
    &&& raw.http == c.http
    &&& raw.local == c.local
    &&& raw.library == c.library
    &&& raw.players == Some(c.players)
    &&& raw.extensions == Some(c.extensions)
}

/// Applies the schema's per-field defaults to the fields a file set; an
/// absent or explicitly empty player list synthesizes the default player.
pub fn config_from_raw(raw: RawConfig) -> (c: Config)
    ensures
        from_raw_rel(raw, c),
{
    let players = match raw.players {
        Some(p) => if p.len() > 0 {
            p
        } else {
            default_backend()
        },
        None => default_backend(),
    };
    let extensions = match raw.extensions {
        Some(e) => e,
        None => ExtensionConfig::default(),
    };
    Config { http: raw.http, local: raw.local, library: raw.library, players, extensions }
}

/// Writes every field of a configuration back out explicitly.
pub fn raw_from_config(c: Config) -> (raw: RawConfig)
    ensures
        to_raw_rel(c, raw),
{
    RawConfig {
        http: c.http,
        local: c.local,
        library: c.library,
        players: Some(c.players),
        extensions: Some(c.extensions),
    }
}

/// Parsing a file and then re-serializing the resulting configuration
/// preserves every field the file set explicitly. The one exception is an
/// explicitly empty player list: a host needs at least one player, so that
/// list comes back as the synthesized default player, not empty.
pub proof fn lemma_config_round_trip(raw: RawConfig, c: Config, back: RawConfig)
    requires
        from_raw_rel(raw, c),
        to_raw_rel(c, back),
    ensures
        back.http == raw.http,
        back.local == raw.local,
        back.library == raw.library,
        (match raw.players {
            Some(p) => p.len() > 0 ==> back.players == Some(p),
            None => true,
        }),
        raw.extensions matches Some(e) ==> back.extensions == Some(e),
{
}

/// Builds the startup configuration from what was found at the configured
/// path: `None` when no file exists there, otherwise the outcome of
/// reading and parsing it. No file at all yields the default configuration
/// and is not an error, a file that could not be read or parsed is a fatal
/// startup error, and a parsed file fully replaces the defaults field by
/// field.
pub fn read_config(file: Option<Result<RawConfig, String>>) -> (r: Result<Config, StartupError>)
    ensures
        file is None ==> (r matches Ok(c) && c.is_default()),
        file matches Some(Err(d)) ==> (r matches Err(e) && e matches StartupError::ConfigParse(m)
            && m@ == d@),
        file matches Some(Ok(raw)) ==> (r matches Ok(c) && from_raw_rel(raw, c)),
{
    match file {
        None => Ok(Config::default()),
        Some(Err(detail)) => Err(StartupError::ConfigParse(detail)),
        Some(Ok(raw)) => Ok(config_from_raw(raw)),
    }
}

} // verus!
