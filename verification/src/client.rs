//! The handle through which the conversations of an account are listed and
//! left.

use crate::iter::{DialogIter, IterState};
use crate::peer::{InputChannel, InputPeer, InputUser};
use crate::request::Request;
use grammers_mtsender::InvocationError;
use vstd::prelude::*;

verus! {

/// What leaving a conversation takes.
#[derive(Debug, PartialEq, Eq)]
pub enum DeleteStep {
    /// Nothing: there is nothing to leave, and nothing is sent.
    Done,
    /// This one request is to be sent, and its outcome given to
    /// [`ClientHandle::deleted`].
    Invoke(Request),
}

/// The request that makes the account leave `chat`, by the kind of `chat`.
///
/// The history with a user is deleted, for the account alone and as a
/// whole. From a basic group the account removes itself. A channel is left,
/// named as `chat` names it.
pub open spec fn delete_step(chat: InputPeer) -> DeleteStep {
    match chat {
        InputPeer::Empty => DeleteStep::Done,
        InputPeer::PeerSelf | InputPeer::User { .. } | InputPeer::UserFromMessage {
            ..
        } => DeleteStep::Invoke(
            Request::DeleteHistory { just_clear: false, revoke: false, peer: chat, max_id: 0 },
        ),
        InputPeer::Chat { chat_id } => DeleteStep::Invoke(
            Request::DeleteChatUser { chat_id, user_id: InputUser::UserSelf },
        ),
        InputPeer::Channel { channel_id, access_hash } => DeleteStep::Invoke(
            Request::LeaveChannel { channel: InputChannel::Channel { channel_id, access_hash } },
        ),
        InputPeer::ChannelFromMessage { peer, msg_id, channel_id } => DeleteStep::Invoke(
            Request::LeaveChannel {
                channel: InputChannel::FromMessage { peer: *peer, msg_id, channel_id },
            },
        ),
    }
}

/// A handle to the account. It decides what is sent; sending is the
/// caller's.
#[derive(Clone, Copy, Debug, PartialEq, Eq)]
pub struct ClientHandle {}

impl ClientHandle {
    pub fn new() -> (client: ClientHandle)
        ensures
            client == (ClientHandle {  }),
    {
        ClientHandle {  }
    }

    /// Returns a new iterator over the conversations.
    pub fn iter_dialogs(&self) -> (iter: DialogIter)
        ensures
            iter@ == IterState::fresh(),
    {
        DialogIter::new()
    }

    /// Deletes a conversation from the list of open conversations.
    ///
    /// The conversation is only deleted for the account itself: its history
    /// is cleared and the account is out of it. For groups and channels this
    /// is the same as leaving; the chat itself stays, and so do its other
    /// members.
    pub fn delete_dialog(&mut self, chat: &InputPeer) -> (step: DeleteStep)
        ensures
            step == delete_step(*chat),
            *final(self) == *old(self),
    {
        match chat {
            InputPeer::Empty => DeleteStep::Done,
            InputPeer::PeerSelf | InputPeer::User { .. } | InputPeer::UserFromMessage {
                ..
            } => DeleteStep::Invoke(
                Request::DeleteHistory {
                    just_clear: false,
                    revoke: false,
                    peer: chat.clone(),
                    max_id: 0,
                },
            ),
            InputPeer::Chat { chat_id } => DeleteStep::Invoke(
                Request::DeleteChatUser { chat_id: *chat_id, user_id: InputUser::UserSelf },
            ),
            InputPeer::Channel { channel_id, access_hash } => DeleteStep::Invoke(
                Request::LeaveChannel {
                    channel: InputChannel::Channel {
                        channel_id: *channel_id,
                        access_hash: *access_hash,
                    },
                },
            ),
            InputPeer::ChannelFromMessage { peer, msg_id, channel_id } => DeleteStep::Invoke(
                Request::LeaveChannel {
                    channel: InputChannel::FromMessage {
                        peer: (&**peer).clone(),
                        msg_id: *msg_id,
                        channel_id: *channel_id,
                    },
                },
            ),
        }
    }

    /// Takes the outcome of the request that [`ClientHandle::delete_dialog`]
    /// returned. What the server answered is dropped; a failure of the
    /// transport is handed on as it came.
    pub fn deleted<T>(&mut self, outcome: Result<T, InvocationError>) -> (result: Result<
        (),
        InvocationError,
    >)
        ensures
            result == match outcome {
                Ok(_) => Ok::<(), InvocationError>(()),
                Err(error) => Err(error),
            },
            *final(self) == *old(self),
    {
        match outcome {
            Ok(_) => Ok(()),
            Err(error) => Err(error),
        }
    }
}

} // verus!
