use odin_host::{
    config_from_raw, default_backend, raw_from_config, read_config, Config, ExtensionConfig,
    LibraryConfig, LocalProviderConfig, PlayerBackend, PlayerBackendConfig, RawConfig,
};

fn empty_raw() -> RawConfig {
    RawConfig { http: None, local: None, library: None, players: None, extensions: None }
}

fn sample_player(name: &str, default: bool) -> PlayerBackendConfig {
    PlayerBackendConfig {
        name: name.to_string(),
        default,
        backend_type: PlayerBackend::GStreamer,
    }
}

#[test]
fn missing_file_yields_default_config() {
    let r = read_config(None);
    let c = r.expect("no file is not an error");
    let http = c.http.expect("default config enables the http frontend");
    assert_eq!(http.ip, "0.0.0.0");
    assert_eq!(http.port, 20789);
    assert!(c.local.is_none());
    assert_eq!(c.library, Some(LibraryConfig::Memory));
    assert_eq!(c.players.len(), 1);
    assert_eq!(c.players[0].name, "default");
    assert!(c.players[0].default);
    assert_eq!(c.players[0].backend_type, PlayerBackend::GStreamer);
    assert!(c.extensions.path.is_none());
}

#[test]
fn default_config_matches_default_impl() {
    let c = read_config(None).unwrap();
    assert_eq!(c, Config::default());
}

#[test]
fn unreadable_file_is_fatal() {
    let r = read_config(Some(Err("invalid TOML at line 3".to_string())));
    match r {
        Err(odin_host::StartupError::ConfigParse(d)) => {
            assert_eq!(d, "invalid TOML at line 3")
        },
        _ => panic!("a parse failure must abort startup"),
    }
}

#[test]
fn parsed_file_replaces_defaults_field_by_field() {
    let raw = RawConfig {
        http: None,
        local: Some(LocalProviderConfig { path: "/music".to_string() }),
        library: Some(LibraryConfig::SQLite { path: "library.db".to_string() }),
        players: Some(vec![sample_player("living room", false)]),
        extensions: Some(ExtensionConfig { path: Some("/ext".to_string()) }),
    };
    let c = read_config(Some(Ok(raw))).unwrap();
    assert!(c.http.is_none());
    assert_eq!(c.local, Some(LocalProviderConfig { path: "/music".to_string() }));
    assert_eq!(c.library, Some(LibraryConfig::SQLite { path: "library.db".to_string() }));
    assert_eq!(c.players, vec![sample_player("living room", false)]);
    assert_eq!(c.extensions.path, Some("/ext".to_string()));
}

#[test]
fn missing_players_section_synthesizes_default_player() {
    let c = config_from_raw(empty_raw());
    assert_eq!(c.players, default_backend());
    assert_eq!(c.players.len(), 1);
    assert_eq!(c.players[0].name, "default");
    assert!(c.players[0].default);
}

#[test]
fn empty_players_list_synthesizes_default_player() {
    // a file that sets `player = []` still yields one usable player
    let mut raw = empty_raw();
    raw.players = Some(Vec::new());
    let c = config_from_raw(raw);
    assert_eq!(c.players, default_backend());
    assert_eq!(c.players.len(), 1);
    assert_eq!(c.players[0].name, "default");
    assert!(c.players[0].default);
}

#[test]
fn empty_players_list_round_trips_as_the_default_player() {
    let mut raw = empty_raw();
    raw.players = Some(Vec::new());
    let back = raw_from_config(config_from_raw(raw));
    assert_eq!(back.players, Some(default_backend()));
}

#[test]
fn default_backend_is_one_default_entry() {
    let players = default_backend();
    assert_eq!(players, vec![sample_player("default", true)]);
}

#[test]
fn round_trip_preserves_explicit_fields() {
    let raw = RawConfig {
        http: Some(odin_host::HttpConfig { ip: "127.0.0.1".to_string(), port: 9000 }),
        local: Some(LocalProviderConfig { path: "/srv/music".to_string() }),
        library: Some(LibraryConfig::Memory),
        players: Some(vec![sample_player("a", true), sample_player("b", false)]),
        extensions: Some(ExtensionConfig { path: None }),
    };
    let back = raw_from_config(config_from_raw(raw.clone()));
    assert_eq!(back, raw);
}

#[test]
fn round_trip_keeps_set_fields_when_others_are_absent() {
    let mut raw = empty_raw();
    raw.library = Some(LibraryConfig::SQLite { path: "x.db".to_string() });
    let back = raw_from_config(config_from_raw(raw.clone()));
    assert_eq!(back.library, raw.library);
    assert_eq!(back.http, None);
    assert_eq!(back.local, None);
    // absent sections come back as their documented defaults, now explicit
    assert_eq!(back.players, Some(default_backend()));
    assert_eq!(back.extensions, Some(ExtensionConfig { path: None }));
}
