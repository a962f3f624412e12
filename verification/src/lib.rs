//! Composition and lifecycle orchestration for an extensible media-server
//! host: configuration selects concrete component variants, extensions are
//! discovered and loaded, the resulting object graph is wired into a shared
//! application host, and background services are supervised until an
//! interrupt requests shutdown.

mod config;
mod error;
mod extension;
mod factory;
mod host;
mod options;
mod player;
mod provider;
mod store;
mod supervisor;

pub use config::{
    config_from_raw, default_backend, raw_from_config, read_config, Config, ExtensionConfig,
    HttpConfig, LibraryConfig, LocalProviderConfig, PlayerBackend, PlayerBackendConfig, RawConfig,
};
pub use error::{exit_code, StartupError};
pub use extension::{
    extension_candidates, load_extensions, select_extension_dir, HostedExtension,
};
pub use factory::{lemma_default_player_registration, register_players};
pub use host::{after_exit, lemma_exit_idempotent, lemma_same_name_last_wins, Host};
pub use options::{log_level_for, CliOptions, LogLevel};
pub use player::{Player, PlayerBuilder, QueueStrategy};
pub use provider::{configured_providers, setup_providers, Provider, SetupDiagnostic};
pub use store::{select_store, store_request, Library, MemoryLibrary, SqliteLibrary, StoreRequest};
pub use supervisor::{
    interrupt_registration, lemma_exit_drives_termination, planned_services, service_step,
    step_services, ServiceKind, ServiceState,
};
