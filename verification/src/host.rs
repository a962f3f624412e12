use vstd::prelude::*;

use crate::error::StartupError;
use crate::extension::HostedExtension;
use crate::player::Player;
use crate::provider::Provider;
use crate::store::Library;

verus! {

broadcast use vstd::string::group_string_axioms;

/// The name-to-player mapping a list of registrations denotes: later
/// registrations of a name overwrite earlier ones.
pub open spec fn map_of(s: Seq<(String, Player)>) -> Map<Seq<char>, Player>
    decreases s.len(),
{
    if s.len() == 0 {
        Map::empty()
    } else {
        map_of(s.drop_last()).insert(s.last().0@, s.last().1)
    }
}

pub open spec fn unique_keys(s: Seq<(String, Player)>) -> bool {
    forall|i: int, j: int| 0 <= i < j < s.len() ==> s[i].0@ != s[j].0@
}

pub open spec fn has_key(s: Seq<(String, Player)>, k: Seq<char>) -> bool {
    exists|i: int| 0 <= i < s.len() && s[i].0@ == k
}

proof fn lemma_map_of_dom(s: Seq<(String, Player)>)
    ensures
        forall|k: Seq<char>| #[trigger] map_of(s).dom().contains(k) <==> has_key(s, k),
    decreases s.len(),
{
    if s.len() > 0 {
        lemma_map_of_dom(s.drop_last());
        assert(map_of(s) == map_of(s.drop_last()).insert(s.last().0@, s.last().1));
        assert forall|k: Seq<char>| #[trigger] map_of(s).dom().contains(k) implies has_key(s, k) by {
            if k == s.last().0@ {
                assert(s[s.len() - 1].0@ == k);
            } else {
                assert(map_of(s.drop_last()).dom().contains(k));
                assert(has_key(s.drop_last(), k));
                let i = choose|i: int| 0 <= i < s.drop_last().len() && s.drop_last()[i].0@ == k;
                assert(s[i].0@ == k);
            }
        }
        assert forall|k: Seq<char>| has_key(s, k) implies #[trigger] map_of(s).dom().contains(k) by {
            let i = choose|i: int| 0 <= i < s.len() && s[i].0@ == k;
            if i < s.len() - 1 {
                assert(s.drop_last()[i].0@ == k);
                assert(has_key(s.drop_last(), k));
                assert(map_of(s.drop_last()).dom().contains(k));
            } else {
                assert(k == s.last().0@);
            }
        }
    }
}

proof fn lemma_map_of_index(s: Seq<(String, Player)>, i: int)
    requires
        unique_keys(s),
        0 <= i < s.len(),
    ensures
        map_of(s).dom().contains(s[i].0@),
        map_of(s)[s[i].0@] == s[i].1,
    decreases s.len(),
{
    if i == s.len() - 1 {
    } else {
        assert(unique_keys(s.drop_last()));
        assert(s.drop_last()[i] == s[i]);
        lemma_map_of_index(s.drop_last(), i);
        assert(s[i].0@ != s.last().0@);
    }
}

proof fn lemma_map_of_remove(s: Seq<(String, Player)>, i: int)
    requires
        unique_keys(s),
        0 <= i < s.len(),
    ensures
        map_of(s.remove(i)) == map_of(s).remove(s[i].0@),
    decreases s.len(),
{
    lemma_map_of_dom(s.drop_last());
    if i == s.len() - 1 {
        assert(s.remove(i) =~= s.drop_last());
        assert(!has_key(s.drop_last(), s[i].0@));
        assert(map_of(s.drop_last()).remove(s[i].0@) =~= map_of(s.drop_last()));
        assert(map_of(s).remove(s[i].0@) =~= map_of(s.drop_last()).insert(
            s.last().0@,
            s.last().1,
        ).remove(s[i].0@));
        assert(map_of(s.drop_last()).insert(s.last().0@, s.last().1).remove(s[i].0@)
            =~= map_of(s.drop_last()));
    } else {
        let t = s.remove(i);
        assert(t.len() == s.len() - 1);
        assert(t.last() == s.last());
        assert(t.drop_last() =~= s.drop_last().remove(i));
        assert(unique_keys(s.drop_last()));
        assert(s.drop_last()[i] == s[i]);
        lemma_map_of_remove(s.drop_last(), i);
        assert(map_of(t) == map_of(s.drop_last()).remove(s[i].0@).insert(
            s.last().0@,
            s.last().1,
        ));
        assert(s[i].0@ != s.last().0@);
        assert(map_of(s.drop_last()).remove(s[i].0@).insert(s.last().0@, s.last().1)
            =~= map_of(s.drop_last()).insert(s.last().0@, s.last().1).remove(s[i].0@));
    }
}

/// The shared aggregate owning one running instance's store, providers,
/// extensions and registered players, plus the default-player pointer and
/// the process-wide exit flag. It is shared by reference across every
/// service thread; mutation of the player mapping and the default pointer
/// must be externally synchronized (exclusive writer, shared readers).
pub struct Host {
    library: Library,
    providers: Vec<Provider>,
    extensions: Vec<HostedExtension>,
    players: Vec<(String, Player)>,
    default_player: Option<String>,
    exit_requested: bool,
}

/// The host state after one call of `exit`: the exit flag set, everything
/// else untouched.
pub closed spec fn after_exit(h: Host) -> Host {
    Host { exit_requested: true, ..h }
}

impl Host {
    /// The store this instance owns.
    pub closed spec fn store_spec(self) -> Library {
        self.library
    }

    /// The registered providers, in configuration order.
    pub closed spec fn providers_spec(self) -> Seq<Provider> {
        self.providers@
    }

    /// The loaded extensions, owned for the host's lifetime.
    pub closed spec fn extensions_spec(self) -> Seq<HostedExtension> {
        self.extensions@
    }

    /// The name-to-player mapping, later registrations winning.
    pub closed spec fn player_map(self) -> Map<Seq<char>, Player> {
        map_of(self.players@)
    }

    /// The name the default-player pointer holds, if any. The pointer may
    /// dangle (name absent from the mapping); consumers treat a dangling
    /// default as no default.
    pub closed spec fn default_name(self) -> Option<Seq<char>> {
        match self.default_player {
            Some(s) => Some(s@),
            None => None,
        }
    }

    pub closed spec fn exit_flag(self) -> bool {
        self.exit_requested
    }

    pub closed spec fn wf(self) -> bool {
        unique_keys(self.players@)
    }

    /// Wires the constructed object graph into a host. The typed inputs
    /// already carry their invariants, so construction always succeeds;
    /// the fallible signature is the contract collaborators build against.
    pub fn new(store: Library, providers: Vec<Provider>, extensions: Vec<HostedExtension>) -> (r:
        Result<Host, StartupError>)
        ensures
            r matches Ok(h) && h.wf() && h.store_spec() == store && h.providers_spec()
                == providers@ && h.extensions_spec() == extensions@ && h.player_map() == Map::<
                Seq<char>,
                Player,
            >::empty() && h.default_name() is None && !h.exit_flag(),
    {
        Ok(
            Host {
                library: store,
                providers,
                extensions,
                players: Vec::new(),
                default_player: None,
                exit_requested: false,
            },
        )
    }

    /// Inserts or replaces the mapping entry for `name`: no uniqueness
    /// enforcement beyond last-write-wins.
    pub fn add_player(&mut self, name: String, player: Player)
        requires
            old(self).wf(),
        ensures
            final(self).wf(),
            final(self).player_map() == old(self).player_map().insert(name@, player),
            final(self).default_name() == old(self).default_name(),
            final(self).exit_flag() == old(self).exit_flag(),
            final(self).store_spec() == old(self).store_spec(),
            final(self).providers_spec() == old(self).providers_spec(),
            final(self).extensions_spec() == old(self).extensions_spec(),
    {
        let ghost s0 = self.players@;
        let mut i: usize = 0;
        while i < self.players.len()
            invariant
                *self == *old(self),
                old(self).wf(),
                s0 == self.players@,
                i <= self.players@.len(),
                forall|j: int| 0 <= j < i ==> self.players@[j].0@ != name@,
            decreases self.players@.len() - i,
        {
            if self.players[i].0 == name {
                self.players.remove(i);
                self.players.push((name, player));
                proof {
                    lemma_map_of_remove(s0, i as int);
                    assert(self.players@.drop_last() =~= s0.remove(i as int));
                    assert(map_of(self.players@) == map_of(s0.remove(i as int)).insert(
                        name@,
                        player,
                    ));
                    assert(map_of(s0).remove(s0[i as int].0@).insert(name@, player)
                        =~= map_of(s0).insert(name@, player));
                    assert forall|a: int, b: int|
                        0 <= a < b < self.players@.len() implies self.players@[a].0@
                        != self.players@[b].0@ by {
                        if b == self.players@.len() - 1 {
                            if a < i {
                                assert(s0.remove(i as int)[a] == s0[a]);
                            } else {
                                assert(s0.remove(i as int)[a] == s0[a + 1]);
                            }
                        } else {
                            if a < i {
                                assert(s0.remove(i as int)[a] == s0[a]);
                            } else {
                                assert(s0.remove(i as int)[a] == s0[a + 1]);
                            }
                            if b < i {
                                assert(s0.remove(i as int)[b] == s0[b]);
                            } else {
                                assert(s0.remove(i as int)[b] == s0[b + 1]);
                            }
                        }
                    }
                }
                return;
            }
            i = i + 1;
        }
        self.players.push((name, player));
        proof {
            assert(self.players@.drop_last() =~= s0);
            assert forall|a: int, b: int|
                0 <= a < b < self.players@.len() implies self.players@[a].0@
                != self.players@[b].0@ by {
                if b == self.players@.len() - 1 {
                    assert(self.players@[a] == s0[a]);
                } else {
                    assert(self.players@[a] == s0[a]);
                    assert(self.players@[b] == s0[b]);
                }
            }
        }
    }

    /// Looks a player up by name.
    pub fn get_player(&self, name: &String) -> (r: Option<Player>)
        requires
            self.wf(),
        ensures
            r matches Some(p) ==> self.player_map().dom().contains(name@) && p
                == self.player_map()[name@],
            r is None ==> !self.player_map().dom().contains(name@),
    {
        proof {
            lemma_map_of_dom(self.players@);
        }
        let mut i: usize = 0;
        while i < self.players.len()
            invariant
                self.wf(),
                i <= self.players@.len(),
                forall|j: int| 0 <= j < i ==> self.players@[j].0@ != name@,
            decreases self.players@.len() - i,
        {
            if self.players[i].0 == *name {
                proof {
                    lemma_map_of_index(self.players@, i as int);
                }
                return Some(self.players[i].1);
            }
            i = i + 1;
        }
        proof {
            assert(!has_key(self.players@, name@));
        }
        None
    }

    /// How many mapping entries the host holds.
    pub fn player_count(&self) -> (r: usize)
        requires
            self.wf(),
        ensures
            r == self.player_map().dom().len(),
    {
        proof {
            lemma_map_of_card(self.players@);
        }
        self.players.len()
    }

    /// Sets the default-player pointer. Existence of `name` in the mapping
    /// is not validated; a dangling default reads as no default.
    pub fn set_default_player(&mut self, name: String)
        requires
            old(self).wf(),
        ensures
            final(self).wf(),
            final(self).default_name() == Some(name@),
            final(self).player_map() == old(self).player_map(),
            final(self).exit_flag() == old(self).exit_flag(),
            final(self).store_spec() == old(self).store_spec(),
            final(self).providers_spec() == old(self).providers_spec(),
            final(self).extensions_spec() == old(self).extensions_spec(),
    {
        self.default_player = Some(name);
    }

    /// Resolves the default player: the player the default pointer names,
    /// or nothing when no default was set or the pointer dangles.
    pub fn default_player(&self) -> (r: Option<Player>)
        requires
            self.wf(),
        ensures
            r matches Some(p) ==> (self.default_name() matches Some(n)
                && self.player_map().dom().contains(n) && p == self.player_map()[n]),
            r is None ==> (self.default_name() is None || (self.default_name() matches Some(n)
                && !self.player_map().dom().contains(n))),
    {
        match &self.default_player {
            Some(name) => self.get_player(name),
            None => None,
        }
    }

    /// The store the host owns.
    pub fn store(&self) -> (r: &Library)
        ensures
            *r == self.store_spec(),
    {
        &self.library
    }

    /// The registered providers, in configuration order.
    pub fn providers(&self) -> (r: &Vec<Provider>)
        ensures
            r@ == self.providers_spec(),
    {
        &self.providers
    }

    /// The loaded extensions.
    pub fn extensions(&self) -> (r: &Vec<HostedExtension>)
        ensures
            r@ == self.extensions_spec(),
    {
        &self.extensions
    }

    /// The name the default-player pointer currently holds, if any; it may
    /// dangle.
    pub fn default_player_name(&self) -> (r: &Option<String>)
        ensures
            r matches Some(n) ==> self.default_name() == Some(n@),
            r is None ==> self.default_name() is None,
    {
        &self.default_player
    }

    /// Whether shutdown has been requested. This is the sole signal the
    /// background services consume to begin graceful shutdown.
    pub fn exit_was_requested(&self) -> (r: bool)
        ensures
            r == self.exit_flag(),
    {
        self.exit_requested
    }

    /// Requests shutdown: sets the process-wide exit flag. The first call
    /// transitions the flag, every further call is a no-op on an unchanged
    /// host.
    pub fn exit(&mut self)
        ensures
            *final(self) == after_exit(*old(self)),
            final(self).exit_flag(),
            old(self).exit_flag() ==> *final(self) == *old(self),
    {
        self.exit_requested = true;
    }
}

proof fn lemma_map_of_card(s: Seq<(String, Player)>)
    requires
        unique_keys(s),
    ensures
        map_of(s).dom().finite(),
        map_of(s).dom().len() == s.len(),
    decreases s.len(),
{
    if s.len() > 0 {
        assert(unique_keys(s.drop_last()));
        lemma_map_of_card(s.drop_last());
        lemma_map_of_dom(s.drop_last());
        assert(!has_key(s.drop_last(), s.last().0@));
        assert(map_of(s).dom() =~= map_of(s.drop_last()).dom().insert(s.last().0@));
    }
}

/// However many times and from however many callers `exit` is requested,
/// the flag transitions false to true exactly once: a second request
/// changes nothing, and every observer sees the flag set after the first.
pub proof fn lemma_exit_idempotent(h: Host)
    ensures
        after_exit(h).exit_flag(),
        after_exit(after_exit(h)) == after_exit(h),
        h.exit_flag() ==> after_exit(h) == h,
        after_exit(h).player_map() == h.player_map(),
        after_exit(h).default_name() == h.default_name(),
        after_exit(h).wf() == h.wf(),
        after_exit(h).store_spec() == h.store_spec(),
        after_exit(h).providers_spec() == h.providers_spec(),
        after_exit(h).extensions_spec() == h.extensions_spec(),
{
}

/// Registering two players under the same name leaves exactly one entry
/// for that name in the mapping, bound to the later registration.
pub proof fn lemma_same_name_last_wins(
    m: Map<Seq<char>, Player>,
    name: Seq<char>,
    first: Player,
    second: Player,
)
    ensures
        m.insert(name, first).insert(name, second) == m.insert(name, second),
        m.insert(name, first).insert(name, second)[name] == second,
        m.insert(name, first).insert(name, second).dom() == m.dom().insert(name),
{
    assert(m.insert(name, first).insert(name, second) =~= m.insert(name, second));
    assert(m.insert(name, first).insert(name, second).dom() =~= m.dom().insert(name));
}

} // verus!
