use odin_host::{
    Host, Library, MemoryLibrary, Player, PlayerBackend, PlayerBuilder, QueueStrategy,
};

fn fresh_host() -> Host {
    Host::new(Library::Memory(MemoryLibrary::new()), Vec::new(), Vec::new()).unwrap()
}

fn gstreamer_player() -> Player {
    PlayerBuilder::new().with_memory_queue().with_gstreamer(true).unwrap().build()
}

#[test]
fn new_host_is_empty_and_running() {
    let h = fresh_host();
    assert_eq!(h.player_count(), 0);
    assert!(h.default_player_name().is_none());
    assert!(h.default_player().is_none());
    assert!(!h.exit_was_requested());
    assert!(h.providers().is_empty());
    assert!(h.extensions().is_empty());
}

#[test]
fn add_player_then_get() {
    let mut h = fresh_host();
    h.add_player("bedroom".to_string(), gstreamer_player());
    assert_eq!(h.player_count(), 1);
    let p = h.get_player(&"bedroom".to_string()).expect("registered player");
    assert_eq!(p.queue, QueueStrategy::Memory);
    assert_eq!(p.backend, PlayerBackend::GStreamer);
    assert!(h.get_player(&"kitchen".to_string()).is_none());
}

#[test]
fn same_name_registered_twice_keeps_one_entry() {
    let mut h = fresh_host();
    h.add_player("salon".to_string(), gstreamer_player());
    h.add_player("salon".to_string(), gstreamer_player());
    assert_eq!(h.player_count(), 1);
    assert!(h.get_player(&"salon".to_string()).is_some());
}

#[test]
fn dangling_default_reads_as_no_default() {
    let mut h = fresh_host();
    h.add_player("a".to_string(), gstreamer_player());
    h.set_default_player("ghost".to_string());
    assert_eq!(h.default_player_name(), &Some("ghost".to_string()));
    assert!(h.default_player().is_none());
}

#[test]
fn default_player_resolves_when_registered() {
    let mut h = fresh_host();
    h.add_player("a".to_string(), gstreamer_player());
    h.set_default_player("a".to_string());
    assert!(h.default_player().is_some());
}

#[test]
fn exit_transitions_once_and_stays_set() {
    let mut h = fresh_host();
    assert!(!h.exit_was_requested());
    h.exit();
    assert!(h.exit_was_requested());
    // further calls are no-ops on an already-set flag
    h.exit();
    h.exit();
    assert!(h.exit_was_requested());
    assert_eq!(h.player_count(), 0);
}

#[test]
fn builder_composes_queue_and_backend() {
    let b = PlayerBuilder::new().with_memory_queue();
    let p = b.with_gstreamer(true).unwrap().build();
    assert_eq!(p.queue, QueueStrategy::Memory);
    assert_eq!(p.backend, PlayerBackend::GStreamer);
}

#[test]
fn builder_backend_failure_is_player_build_error() {
    let b = PlayerBuilder::new().with_memory_queue();
    match b.with_gstreamer(false) {
        Err(odin_host::StartupError::PlayerBuild(_)) => {},
        _ => panic!("an uninitialized backend must fail the build"),
    }
}
