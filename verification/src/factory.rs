use vstd::prelude::*;

use crate::config::{is_default_backend, PlayerBackend, PlayerBackendConfig};
use crate::error::StartupError;
use crate::host::Host;
use crate::player::{Player, PlayerBuilder, QueueStrategy};

verus! {

broadcast use vstd::string::group_string_axioms;

/// The player one configuration entry builds: the fixed in-memory queueing
/// strategy composed with the configured backend.
pub open spec fn player_of(c: PlayerBackendConfig) -> Player {
    Player { queue: QueueStrategy::Memory, backend: c.backend_type }
}

/// The player mapping after registering the given entries in order on top
/// of `m`: each entry inserted under its name, later entries overwriting
/// earlier ones of the same name.
pub open spec fn registered_map(
    m: Map<Seq<char>, Player>,
    cfgs: Seq<PlayerBackendConfig>,
) -> Map<Seq<char>, Player>
    decreases cfgs.len(),
{
    if cfgs.len() == 0 {
        m
    } else {
        registered_map(m, cfgs.drop_last()).insert(cfgs.last().name@, player_of(cfgs.last()))
    }
}

/// The default-player pointer after registering the given entries in order
/// on top of `d`: the last entry marked default wins.
pub open spec fn registered_default(
    d: Option<Seq<char>>,
    cfgs: Seq<PlayerBackendConfig>,
) -> Option<Seq<char>>
    decreases cfgs.len(),
{
    if cfgs.len() == 0 {
        d
    } else {
        let prev = registered_default(d, cfgs.drop_last());
        if cfgs.last().default {
            Some(cfgs.last().name@)
        } else {
            prev
        }
    }
}

/// Builds and registers one player per configuration entry, strictly in
/// configuration order: each composes the in-memory queue with the entry's
/// backend, is registered under the entry's name (a later duplicate name
/// silently replaces the earlier mapping entry), and, when the entry is
/// marked default, overwrites the host's default-player pointer.
/// `backend_ready` records, per entry, whether its backend initialized; the
/// first entry whose backend did not is a fatal player-build error that
/// stops registration there.
pub fn register_players(
    host: &mut Host,
    configs: &Vec<PlayerBackendConfig>,
    backend_ready: &Vec<bool>,
) -> (r: Result<(), StartupError>)
    requires
        old(host).wf(),
        backend_ready@.len() == configs@.len(),
    ensures
        final(host).wf(),
        final(host).store_spec() == old(host).store_spec(),
        final(host).providers_spec() == old(host).providers_spec(),
        final(host).extensions_spec() == old(host).extensions_spec(),
        final(host).exit_flag() == old(host).exit_flag(),
        r is Ok <==> (forall|i: int| 0 <= i < backend_ready@.len() ==> backend_ready@[i]),
        r is Ok ==> final(host).player_map() == registered_map(old(host).player_map(), configs@)
            && final(host).default_name() == registered_default(
            old(host).default_name(),
            configs@,
        ),
        r matches Err(e) ==> e is PlayerBuild && (exists|i: int|
            0 <= i < backend_ready@.len() && !backend_ready@[i] && (forall|j: int|
                0 <= j < i ==> backend_ready@[j]) && final(host).player_map() == registered_map(
                old(host).player_map(),
                configs@.subrange(0, i),
            ) && final(host).default_name() == registered_default(
                old(host).default_name(),
                configs@.subrange(0, i),
            )),
{
    let mut i: usize = 0;
    while i < configs.len()
        invariant
            host.wf(),
            backend_ready@.len() == configs@.len(),
            i <= configs@.len(),
            forall|j: int| 0 <= j < i ==> backend_ready@[j],
            host.player_map() == registered_map(
                old(host).player_map(),
                configs@.subrange(0, i as int),
            ),
            host.default_name() == registered_default(
                old(host).default_name(),
                configs@.subrange(0, i as int),
            ),
            host.store_spec() == old(host).store_spec(),
            host.providers_spec() == old(host).providers_spec(),
            host.extensions_spec() == old(host).extensions_spec(),
            host.exit_flag() == old(host).exit_flag(),
        decreases configs@.len() - i,
    {
        let ghost prefix = configs@.subrange(0, i as int);
        let cfg = &configs[i];
        match cfg.backend_type {
            PlayerBackend::GStreamer => {
                let builder = PlayerBuilder::new().with_memory_queue();
                let player = match builder.with_gstreamer(backend_ready[i]) {
                    Ok(b) => b.build(),
                    Err(e) => {
                        return Err(e);
                    },
                };
                host.add_player(cfg.name.clone(), player);
                if cfg.default {
                    host.set_default_player(cfg.name.clone());
                }
                proof {
                    let next = configs@.subrange(0, i + 1);
                    assert(next.drop_last() =~= prefix);
                    assert(next.last() == configs@[i as int]);
                    assert(player == player_of(configs@[i as int]));
                }
            },
        }
        i = i + 1;
    }
    proof {
        assert(configs@.subrange(0, configs@.len() as int) =~= configs@);
    }
    Ok(())
}

/// With no players section configured, the synthesized list registers into
/// a fresh host exactly one player, named `"default"`, composed of the
/// in-memory queue and the compiled-in backend, and marks it the default.
pub proof fn lemma_default_player_registration(cfgs: Seq<PlayerBackendConfig>)
    requires
        is_default_backend(cfgs),
    ensures
        registered_map(Map::<Seq<char>, Player>::empty(), cfgs) == Map::<
            Seq<char>,
            Player,
        >::empty().insert("default"@, player_of(cfgs[0])),
        registered_map(Map::<Seq<char>, Player>::empty(), cfgs).dom().len() == 1,
        registered_default(None, cfgs) == Some("default"@),
        player_of(cfgs[0]).queue is Memory,
        player_of(cfgs[0]).backend is GStreamer,
{
    assert(cfgs.drop_last().len() == 0);
    assert(cfgs.last() == cfgs[0]);
    assert(registered_map(Map::<Seq<char>, Player>::empty(), cfgs.drop_last()) == Map::<
        Seq<char>,
        Player,
    >::empty());
    assert(registered_map(Map::<Seq<char>, Player>::empty(), cfgs).dom() =~= Set::<
        Seq<char>,
    >::empty().insert("default"@));
}

} // verus!
