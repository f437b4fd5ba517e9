//! The users and chats that come along with a page of results, and the table
//! in which a page's conversations are looked up.

use crate::peer::{InputPeer, Peer};
use vstd::prelude::*;

verus! {

/// A user, as far as addressing them takes.
#[derive(Clone, Copy, Debug, PartialEq, Eq)]
pub struct User {
    pub id: i32,
    pub access_hash: Option<i64>,
}

/// A basic group or a channel, as far as addressing it takes.
#[derive(Clone, Copy, Debug, PartialEq, Eq)]
pub enum Chat {
    Group { id: i32 },
    Channel { id: i32, access_hash: Option<i64> },
}

/// Whoever a conversation is held with.
#[derive(Clone, Copy, Debug, PartialEq, Eq)]
pub enum Entity {
    User(User),
    Chat(Chat),
}

impl Entity {
    /// The identity under which responses refer to this entity.
    pub open spec fn spec_peer(&self) -> Peer {
        match *self {
            Entity::User(user) => Peer::User { user_id: user.id },
            Entity::Chat(Chat::Group { id }) => Peer::Chat { chat_id: id },
            Entity::Chat(Chat::Channel { id, .. }) => Peer::Channel { channel_id: id },
        }
    }

    #[verifier::when_used_as_spec(spec_peer)]
    pub fn peer(&self) -> (peer: Peer)
        ensures
            peer == self.spec_peer(),
    {
        match *self {
            Entity::User(user) => Peer::User { user_id: user.id },
            Entity::Chat(Chat::Group { id }) => Peer::Chat { chat_id: id },
            Entity::Chat(Chat::Channel { id, .. }) => Peer::Channel { channel_id: id },
        }
    }

    /// How a request addresses this entity. An access hash that the server
    /// did not send counts as zero.
    pub open spec fn spec_to_input_peer(&self) -> InputPeer {
        match *self {
            Entity::User(user) => InputPeer::User {
                user_id: user.id,
                access_hash: match user.access_hash {
                    Some(hash) => hash,
                    None => 0,
                },
            },
            Entity::Chat(Chat::Group { id }) => InputPeer::Chat { chat_id: id },
            Entity::Chat(Chat::Channel { id, access_hash }) => InputPeer::Channel {
                channel_id: id,
                access_hash: match access_hash {
                    Some(hash) => hash,
                    None => 0,
                },
            },
        }
    }

    #[verifier::when_used_as_spec(spec_to_input_peer)]
    pub fn to_input_peer(&self) -> (peer: InputPeer)
        ensures
            peer == self.spec_to_input_peer(),
    {
        match *self {
            Entity::User(user) => InputPeer::User {
                user_id: user.id,
                access_hash: match user.access_hash {
                    Some(hash) => hash,
                    None => 0,
                },
            },
            Entity::Chat(Chat::Group { id }) => InputPeer::Chat { chat_id: id },
            Entity::Chat(Chat::Channel { id, access_hash }) => InputPeer::Channel {
                channel_id: id,
                access_hash: match access_hash {
                    Some(hash) => hash,
                    None => 0,
                },
            },
        }
    }
}

/// The users of a page followed by its chats, each as an entity.
pub open spec fn records(users: Seq<User>, chats: Seq<Chat>) -> Seq<Entity> {
    users.map_values(|user: User| Entity::User(user)) + chats.map_values(
        |chat: Chat| Entity::Chat(chat),
    )
}

/// The table that holds each of `entities` under its own identity. Of two
/// entities with one identity the later one stays.
pub open spec fn table(entities: Seq<Entity>) -> Map<Peer, Entity>
    decreases entities.len(),
{
    if entities.len() == 0 {
        Map::empty()
    } else {
        table(entities.drop_last()).insert(entities.last().peer(), entities.last())
    }
}

/// The entities of one page of results, to be looked up by identity.
pub struct EntitySet {
    entries: Vec<Entity>,
}

impl View for EntitySet {
    type V = Map<Peer, Entity>;

    closed spec fn view(&self) -> Map<Peer, Entity> {
        table(self.entries@)
    }
}

impl EntitySet {
    /// Builds the table of a page from the users and chats that came with it.
    pub fn new(users: Vec<User>, chats: Vec<Chat>) -> (set: EntitySet)
        ensures
            set@ == table(records(users@, chats@)),
    {
        let mut entries: Vec<Entity> = Vec::new();
        let mut i: usize = 0;
        while i < users.len()
            invariant
                i <= users@.len(),
                entries@ == users@.take(i as int).map_values(|user: User| Entity::User(user)),
            decreases users@.len() - i,
        {
            entries.push(Entity::User(users[i]));
            i += 1;
            assert(entries@ =~= users@.take(i as int).map_values(|user: User| Entity::User(user)));
        }
        assert(users@.take(users@.len() as int) =~= users@);
        let mut k: usize = 0;
        while k < chats.len()
            invariant
                k <= chats@.len(),
                entries@ == users@.map_values(|user: User| Entity::User(user)) + chats@.take(
                    k as int,
                ).map_values(|chat: Chat| Entity::Chat(chat)),
            decreases chats@.len() - k,
        {
            entries.push(Entity::Chat(chats[k]));
            k += 1;
            assert(entries@ =~= users@.map_values(|user: User| Entity::User(user)) + chats@.take(
                k as int,
            ).map_values(|chat: Chat| Entity::Chat(chat)));
        }
        assert(chats@.take(chats@.len() as int) =~= chats@);
        EntitySet { entries }
    }

    /// The entity that the table holds under `peer`.
    pub fn get(&self, peer: &Peer) -> (found: Option<Entity>)
        ensures
            found == if self@.dom().contains(*peer) {
                Some(self@[*peer])
            } else {
                None::<Entity>
            },
    {
        let mut i: usize = self.entries.len();
        assert(self.entries@.take(i as int) =~= self.entries@);
        while i > 0
            invariant
                i <= self.entries@.len(),
                self@.dom().contains(*peer) == table(self.entries@.take(i as int)).dom().contains(
                    *peer,
                ),
                self@.dom().contains(*peer) ==> self@[*peer] == table(
                    self.entries@.take(i as int),
                )[*peer],
            decreases i,
        {
            let entity: Entity = self.entries[i - 1];
            assert(self.entries@.take(i as int).drop_last() =~= self.entries@.take(i - 1));
            assert(self.entries@.take(i as int).last() == entity);
            if entity.peer() == *peer {
                return Some(entity);
            }
            i -= 1;
        }
        None
    }
}

} // verus!
