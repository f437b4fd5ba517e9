//! How a conversation is named: as the server names it in what it sends
//! ([`Peer`]), and as a request has to name it ([`InputPeer`]).

use vstd::prelude::*;

verus! {

/// The identity of a conversation, as it comes in a response.
#[derive(Clone, Copy, Debug, PartialEq, Eq, Hash, Structural)]
pub enum Peer {
    User { user_id: i32 },
    Chat { chat_id: i32 },
    Channel { channel_id: i32 },
}

/// A conversation, as a request addresses it.
#[derive(Debug, PartialEq, Eq)]
pub enum InputPeer {
    /// No conversation at all.
    Empty,
    /// The conversation of the account with itself.
    PeerSelf,
    /// A basic group.
    Chat { chat_id: i32 },
    /// A user.
    User { user_id: i32, access_hash: i64 },
    /// A channel.
    Channel { channel_id: i32, access_hash: i64 },
    /// A user known only through a message seen in `peer`.
    UserFromMessage { peer: Box<InputPeer>, msg_id: i32, user_id: i32 },
    /// A channel known only through a message seen in `peer`.
    ChannelFromMessage { peer: Box<InputPeer>, msg_id: i32, channel_id: i32 },
}

impl Clone for InputPeer {
    fn clone(&self) -> (copy: Self)
        ensures
            copy == *self,
        decreases *self,
    {
        match self {
            InputPeer::Empty => InputPeer::Empty,
            InputPeer::PeerSelf => InputPeer::PeerSelf,
            InputPeer::Chat { chat_id } => InputPeer::Chat { chat_id: *chat_id },
            InputPeer::User { user_id, access_hash } => InputPeer::User {
                user_id: *user_id,
                access_hash: *access_hash,
            },
            InputPeer::Channel { channel_id, access_hash } => InputPeer::Channel {
                channel_id: *channel_id,
                access_hash: *access_hash,
            },
            InputPeer::UserFromMessage { peer, msg_id, user_id } => InputPeer::UserFromMessage {
                peer: Box::new((&**peer).clone()),
                msg_id: *msg_id,
                user_id: *user_id,
            },
            InputPeer::ChannelFromMessage {
                peer,
                msg_id,
                channel_id,
            } => InputPeer::ChannelFromMessage {
                peer: Box::new((&**peer).clone()),
                msg_id: *msg_id,
                channel_id: *channel_id,
            },
        }
    }
}

/// A user, as a request addresses them.
#[derive(Debug, PartialEq, Eq)]
pub enum InputUser {
    Empty,
    /// The account itself.
    UserSelf,
    User { user_id: i32, access_hash: i64 },
    /// A user known only through a message seen in `peer`.
    FromMessage { peer: InputPeer, msg_id: i32, user_id: i32 },
}

/// A channel, as a request addresses it.
#[derive(Debug, PartialEq, Eq)]
pub enum InputChannel {
    Empty,
    Channel { channel_id: i32, access_hash: i64 },
    /// A channel known only through a message seen in `peer`.
    FromMessage { peer: InputPeer, msg_id: i32, channel_id: i32 },
}

} // verus!
