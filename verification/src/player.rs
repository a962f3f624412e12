use vstd::prelude::*;

use crate::config::PlayerBackend;
use crate::error::StartupError;

verus! {

broadcast use vstd::string::group_string_axioms;

/// The queueing strategies a player can be composed with. This design fixes
/// one choice, the in-memory queue.
#[derive(Debug, Clone, Copy, PartialEq, Eq)]
pub enum QueueStrategy {
    Memory,
}

/// A playback unit: a queueing strategy composed with a backend
/// implementation. The host owns players keyed by name.
#[derive(Debug, Clone, Copy, PartialEq, Eq)]
pub struct Player {
    pub queue: QueueStrategy,
    pub backend: PlayerBackend,
}

/// Two-step player factory: first select the queueing strategy, then the
/// backend implementation, then compose. Backend selection is the one step
/// that can fail, and that failure is a fatal startup error.
#[derive(Debug, Clone, Copy, PartialEq, Eq)]
pub struct PlayerBuilder {
    pub queue: Option<QueueStrategy>,
    pub backend: Option<PlayerBackend>,
}

impl PlayerBuilder {
    pub fn new() -> (r: Self)
        ensures
            r.queue is None,
            r.backend is None,
    {
        PlayerBuilder { queue: None, backend: None }
    }

    pub fn with_memory_queue(self) -> (r: Self)
        ensures
            r.queue == Some(QueueStrategy::Memory),
            r.backend == self.backend,
    {
        PlayerBuilder { queue: Some(QueueStrategy::Memory), ..self }
    }

    /// Selects the native media-pipeline backend. `backend_ready` is
    /// whether that backend initialized; a backend that did not is a fatal
    /// player-build failure.
    pub fn with_gstreamer(self, backend_ready: bool) -> (r: Result<Self, StartupError>)
        ensures
            backend_ready ==> (r matches Ok(b) && b.backend == Some(PlayerBackend::GStreamer)
                && b.queue == self.queue),
            !backend_ready ==> (r matches Err(e) && e is PlayerBuild),
    {
        if backend_ready {
            Ok(PlayerBuilder { backend: Some(PlayerBackend::GStreamer), ..self })
        } else {
            Err(StartupError::PlayerBuild("player backend failed to initialize".to_string()))
        }
    }

    pub fn build(self) -> (r: Player)
        requires
            self.queue is Some,
            self.backend is Some,
        ensures
            Some(r.queue) == self.queue,
            Some(r.backend) == self.backend,
    {
        Player { queue: self.queue.unwrap(), backend: self.backend.unwrap() }
    }
}

} // verus!
