//! The registry of live sessions, found by guild or by owner.

use crate::creation::CreateNext;
use crate::creation::CreateProgress;
use crate::creation::CreateStep;
use crate::handle::SessionHandle;
use crate::protocol::SessionCommand;
use crate::session::Session;
use std::collections::HashMap;
use vstd::prelude::*;
use vstd::std_specs::iter::IteratorSpec;

verus! {

broadcast use vstd::std_specs::hash::group_hash_axioms;

/// The key by which a session is looked up.
#[derive(Debug, Clone, Copy, PartialEq, Eq)]
pub enum SessionQuery {
    /// The session that plays in this guild.
    Guild(u64),
    /// The session that this user controls.
    Owner(u64),
}

/// A command on its way to a session.
#[derive(Debug, Clone, Copy, PartialEq, Eq)]
pub struct Dispatch {
    /// The handle of the session that is to get the command.
    pub to: SessionHandle,
    /// The command.
    pub command: SessionCommand,
}

/// What a registry holds: the session of each guild, and the session of
/// each owner.
pub struct Registry {
    /// The handle of the session in each guild that has one.
    pub sessions: Map<u64, SessionHandle>,
    /// The handle of the session that each owner controls.
    pub owners: Map<u64, SessionHandle>,
}

impl Registry {
    /// The registry without any session.
    pub open spec fn empty() -> Registry {
        Registry { sessions: Map::empty(), owners: Map::empty() }
    }

    /// Whether each session is entered under its own guild.  Every registry
    /// that a [`SessionManager`] holds is.
    pub open spec fn keyed_by_guild(self) -> bool {
        forall|guild: u64| #[trigger]
            self.sessions.contains_key(guild) ==> self.sessions[guild].guild == guild
    }

    /// The handle that a query finds, if any.
    pub open spec fn lookup(self, query: SessionQuery) -> Option<SessionHandle> {
        match query {
            SessionQuery::Guild(guild) => if self.sessions.contains_key(guild) {
                Some(self.sessions[guild])
            } else {
                None
            },
            SessionQuery::Owner(owner) => if self.owners.contains_key(owner) {
                Some(self.owners[owner])
            } else {
                None
            },
        }
    }

    /// The registry after a session was entered under its guild and its
    /// owner.  An earlier entry under either key is replaced.
    pub open spec fn insert(self, handle: SessionHandle, owner: u64) -> Registry {
        Registry {
            sessions: self.sessions.insert(handle.guild, handle),
            owners: self.owners.insert(owner, handle),
        }
    }

    /// The registry after a session got an owner: the owner's entry is the
    /// session's handle, and the guild index is left as it is.
    pub open spec fn set_owner(self, owner: u64, handle: SessionHandle) -> Registry {
        Registry { sessions: self.sessions, owners: self.owners.insert(owner, handle) }
    }

    /// The registry without the entry that a query names.  The other index
    /// is left as it is.
    pub open spec fn remove(self, query: SessionQuery) -> Registry {
        match query {
            SessionQuery::Guild(guild) => Registry {
                sessions: self.sessions.remove(guild),
                owners: self.owners,
            },
            SessionQuery::Owner(owner) => Registry {
                sessions: self.sessions,
                owners: self.owners.remove(owner),
            },
        }
    }

    /// The registry after a session has ended: neither its guild nor its
    /// owner has an entry.
    pub open spec fn forget(self, guild: u64, owner: u64) -> Registry {
        self.remove(SessionQuery::Guild(guild)).remove(SessionQuery::Owner(owner))
    }
}

/// The registry of live sessions.
///
/// It is a pure lookup structure: it owns no session and starts or ends
/// none.  A guild has at most one entry and so has an owner, because each
/// index is a map.
pub struct SessionManager {
    sessions: HashMap<u64, SessionHandle>,
    owners: HashMap<u64, SessionHandle>,
}

impl View for SessionManager {
    type V = Registry;

    closed spec fn view(&self) -> Registry {
        Registry { sessions: self.sessions@, owners: self.owners@ }
    }
}

impl SessionManager {
    #[verifier::type_invariant]
    spec fn keyed_by_guild(&self) -> bool {
        self@.keyed_by_guild()
    }

    /// A registry without sessions.
    pub fn new() -> (manager: Self)
        ensures
            manager@ == Registry::empty(),
    {
        SessionManager { sessions: HashMap::new(), owners: HashMap::new() }
    }

    /// Enters a session under its guild and under its owner, both at once.
    pub fn insert(&mut self, handle: SessionHandle, owner: u64)
        ensures
            final(self)@ == old(self)@.insert(handle, owner),
    {
        // The maps are taken out and put back as a whole, so that the
        // registry is sound wherever it can be seen.
        let mut taken = SessionManager::new();
        std::mem::swap(self, &mut taken);
        proof {
            use_type_invariant(&taken);
            assert(taken@.keyed_by_guild());
        }
        let ghost before = taken@;
        let SessionManager { mut sessions, mut owners } = taken;
        sessions.insert(handle.guild, handle);
        owners.insert(owner, handle);
        assert(sessions@ == before.sessions.insert(handle.guild, handle));
        assert((Registry { sessions: sessions@, owners: owners@ }).keyed_by_guild());
        *self = SessionManager { sessions, owners };
    }

    /// Enters a session under a new owner.  The guild index is left as it
    /// is.
    pub fn set_owner(&mut self, owner: u64, handle: SessionHandle)
        ensures
            final(self)@ == old(self)@.set_owner(owner, handle),
    {
        let mut taken = SessionManager::new();
        std::mem::swap(self, &mut taken);
        proof {
            use_type_invariant(&taken);
            assert(taken@.keyed_by_guild());
        }
        let ghost before = taken@;
        let SessionManager { sessions, mut owners } = taken;
        owners.insert(owner, handle);
        assert(sessions@ == before.sessions);
        assert((Registry { sessions: sessions@, owners: owners@ }).keyed_by_guild());
        *self = SessionManager { sessions, owners };
    }

    /// Looks a session up.  Nothing is created and nothing changes.
    pub fn get_session(&self, query: SessionQuery) -> (found: Option<SessionHandle>)
        ensures
            found == self@.lookup(query),
    {
        match query {
            SessionQuery::Guild(guild) => match self.sessions.get(&guild) {
                Some(handle) => Some(*handle),
                None => None,
            },
            SessionQuery::Owner(owner) => match self.owners.get(&owner) {
                Some(handle) => Some(*handle),
                None => None,
            },
        }
    }

    /// The handles of all live sessions, each once, in no particular order.
    pub fn get_all_sessions(&self) -> (handles: Vec<SessionHandle>)
        ensures
            self@.keyed_by_guild(),
            handles@.no_duplicates(),
            handles@.len() == self@.sessions.dom().len(),
            forall|handle: SessionHandle|
                handles@.contains(handle) <==> self@.lookup(SessionQuery::Guild(handle.guild))
                    == Some(handle),
    {
        proof {
            use_type_invariant(self);
        }
        let mut handles: Vec<SessionHandle> = Vec::new();
        let ghost all = self.sessions.iter().remaining();
        for entry in it: self.sessions.iter()
            invariant
                it.seq() == all,
                handles@.len() == it.index(),
                forall|j: int| 0 <= j < handles@.len() ==> handles@[j] == *(#[trigger] it.seq()[j]).1,
        {
            handles.push(*entry.1);
        }
        proof {
            assert forall|i: int, j: int|
                0 <= i < handles@.len() && 0 <= j < handles@.len() && i != j implies handles@[i]
                != handles@[j] by {
                assert(self.sessions@.contains_key(*all[i].0));
                assert(self.sessions@.contains_key(*all[j].0));
                if handles@[i] == handles@[j] {
                    assert(*all[i].0 == *all[j].0);
                    assert(all[i] == all[j]);
                }
            }
            assert forall|handle: SessionHandle|
                handles@.contains(handle) <==> self@.lookup(SessionQuery::Guild(handle.guild))
                    == Some(handle) by {
                if handles@.contains(handle) {
                    let i = choose|i: int| 0 <= i < handles@.len() && handles@[i] == handle;
                    assert(self.sessions@.contains_key(*all[i].0));
                }
                if self@.lookup(SessionQuery::Guild(handle.guild)) == Some(handle) {
                    let guild = handle.guild;
                    assert(self.sessions@.contains_key(guild));
                    assert(all.contains((&guild, &self.sessions@[guild])));
                    let i = choose|i: int|
                        0 <= i < all.len() && all[i] == (&guild, &self.sessions@[guild]);
                    assert(handles@[i] == handle);
                }
            }
        }
        handles
    }

    /// The orders that end every live session: one `Disconnect` for each.
    ///
    /// This is for the moment when the linked account is taken away and
    /// all sessions that play from it have to go.
    pub fn shutdown_all(&self) -> (orders: Vec<Dispatch>)
        ensures
            orders@.len() == self@.sessions.dom().len(),
            forall|i: int|
                0 <= i < orders@.len() ==> (#[trigger] orders@[i]).command
                    == SessionCommand::Disconnect,
            orders@.map_values(|order: Dispatch| order.to).no_duplicates(),
            forall|handle: SessionHandle|
                orders@.map_values(|order: Dispatch| order.to).contains(handle) <==> self@.lookup(
                    SessionQuery::Guild(handle.guild),
                ) == Some(handle),
    {
        let handles = self.get_all_sessions();
        let mut orders: Vec<Dispatch> = Vec::new();
        let mut i: usize = 0;
        while i < handles.len()
            invariant
                i <= handles@.len(),
                orders@.len() == i,
                forall|j: int|
                    0 <= j < i ==> #[trigger] orders@[j] == (Dispatch {
                        to: handles@[j],
                        command: SessionCommand::Disconnect,
                    }),
            decreases handles@.len() - i,
        {
            orders.push(Dispatch { to: handles[i], command: SessionCommand::Disconnect });
            i += 1;
        }
        assert(orders@.map_values(|order: Dispatch| order.to) =~= handles@);
        orders
    }

    /// Goes on with creating the session of `owner` in a guild, and enters
    /// the session into the registry once it exists.
    ///
    /// The step is the one that [`Session::create`] gives.  The session is
    /// entered under its guild and its owner, with a handle that reaches it
    /// through `endpoint`, in the call that returns it; until then the
    /// registry is left as it is.
    pub fn create_session(
        &mut self,
        guild_id: u64,
        voice_channel_id: u64,
        text_channel_id: u64,
        owner: u64,
        endpoint: u64,
        progress: &CreateProgress,
    ) -> (step: CreateStep)
        ensures
            step@ == Session::spec_create(
                guild_id,
                voice_channel_id,
                text_channel_id,
                owner,
                endpoint,
                *progress,
            ),
            final(self)@ == if step@.next is Ready {
                old(self)@.insert(
                    SessionHandle {
                        guild: guild_id,
                        voice_channel: voice_channel_id,
                        text_channel: text_channel_id,
                        endpoint,
                    },
                    owner,
                )
            } else {
                old(self)@
            },
    {
        let step = Session::create(
            guild_id,
            voice_channel_id,
            text_channel_id,
            owner,
            endpoint,
            progress,
        );
        match &step.next {
            CreateNext::Ready(_) => {
                self.insert(
                    SessionHandle::new(guild_id, voice_channel_id, text_channel_id, endpoint),
                    owner,
                );
            },
            _ => {},
        }
        step
    }

    /// Removes the entry that a query names.  Removing an entry that is not
    /// there changes nothing.
    pub fn remove_session(&mut self, query: SessionQuery)
        ensures
            final(self)@ == old(self)@.remove(query),
            old(self)@.lookup(query) is None ==> final(self)@ == old(self)@,
    {
        let mut taken = SessionManager::new();
        std::mem::swap(self, &mut taken);
        proof {
            use_type_invariant(&taken);
            assert(taken@.keyed_by_guild());
        }
        let ghost before = taken@;
        let SessionManager { mut sessions, mut owners } = taken;
        match query {
            SessionQuery::Guild(guild) => {
                sessions.remove(&guild);
            },
            SessionQuery::Owner(owner) => {
                owners.remove(&owner);
            },
        }
        assert(sessions@ == before.remove(query).sessions);
        assert((Registry { sessions: sessions@, owners: owners@ }).keyed_by_guild());
        *self = SessionManager { sessions, owners };
        proof {
            if old(self)@.lookup(query) is None {
                assert(final(self)@.sessions =~= old(self)@.sessions);
                assert(final(self)@.owners =~= old(self)@.owners);
            }
        }
    }
}

} // verus!
