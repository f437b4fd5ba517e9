//! The requests that go to the server, and the answer to a request for a
//! page of conversations.

use crate::dialog::{Dialog, RawDialog};
use crate::entity::{records, table, Chat, Entity, EntitySet, User};
use crate::message::Message;
use crate::peer::{InputChannel, InputPeer, InputUser, Peer};
use vstd::prelude::*;

verus! {

/// The request for one page of conversations. The offsets say where the
/// page begins; the iterator moves them from page to page.
#[derive(Debug, PartialEq, Eq)]
pub struct GetDialogs {
    pub exclude_pinned: bool,
    pub folder_id: Option<i32>,
    pub offset_date: i32,
    pub offset_id: i32,
    pub offset_peer: InputPeer,
    pub limit: i32,
    /// Names the state that the caller has already: always zero here, which
    /// names none, so that the server may never answer `NotModified`.
    pub hash: i32,
}

impl Clone for GetDialogs {
    fn clone(&self) -> (copy: Self)
        ensures
            copy == *self,
    {
        GetDialogs {
            exclude_pinned: self.exclude_pinned,
            folder_id: self.folder_id,
            offset_date: self.offset_date,
            offset_id: self.offset_id,
            offset_peer: self.offset_peer.clone(),
            limit: self.limit,
            hash: self.hash,
        }
    }
}

/// The answer to [`GetDialogs`].
#[derive(Debug, PartialEq, Eq)]
pub enum Dialogs {
    /// All the conversations there are.
    Dialogs { dialogs: Vec<RawDialog>, messages: Vec<Message>, chats: Vec<Chat>, users: Vec<User> },
    /// Some of the conversations, and how many there are in all.
    Slice {
        count: usize,
        dialogs: Vec<RawDialog>,
        messages: Vec<Message>,
        chats: Vec<Chat>,
        users: Vec<User>,
    },
    /// Nothing has changed since the state that the request named.
    NotModified { count: usize },
}

/// A request that makes the account leave a conversation.
#[derive(Debug, PartialEq, Eq)]
pub enum Request {
    /// Deletes the history of a conversation with a user.
    DeleteHistory { just_clear: bool, revoke: bool, peer: InputPeer, max_id: i32 },
    /// Removes a user from a basic group.
    DeleteChatUser { chat_id: i32, user_id: InputUser },
    /// Leaves a channel.
    LeaveChannel { channel: InputChannel },
}

/// Each of `dialogs` decoded against `messages` and `entities`, in order.
/// There is no result where one of them cannot be decoded.
pub open spec fn decode_all(
    dialogs: Seq<RawDialog>,
    messages: Seq<Message>,
    entities: Map<Peer, Entity>,
) -> Option<Seq<Dialog>> {
    if forall|i: int| 0 <= i < dialogs.len() ==> entities.dom().contains((#[trigger] dialogs[i]).peer) {
        Some(
            Seq::new(
                dialogs.len(),
                |i: int| Dialog::decode(dialogs[i], messages, entities)->Some_0,
            ),
        )
    } else {
        None
    }
}

impl Dialogs {
    /// The conversations of this page, decoded. There are none where the
    /// answer is `NotModified`, or where it lists a conversation without
    /// sending along whom it is with.
    pub open spec fn decoded(self) -> Option<Seq<Dialog>> {
        match self {
            Dialogs::Dialogs { dialogs, messages, chats, users } => decode_all(
                dialogs@,
                messages@,
                table(records(users@, chats@)),
            ),
            Dialogs::Slice { dialogs, messages, chats, users, .. } => decode_all(
                dialogs@,
                messages@,
                table(records(users@, chats@)),
            ),
            Dialogs::NotModified { .. } => None,
        }
    }

    /// How many conversations there are in all, going by this page: the
    /// length of a whole list, the count that a slice states.
    pub open spec fn reported_total(self) -> usize {
        match self {
            Dialogs::Dialogs { dialogs, .. } => dialogs@.len() as usize,
            Dialogs::Slice { count, .. } => count,
            Dialogs::NotModified { count } => count,
        }
    }

    /// Whether, after this page, there is nothing left to fetch for a
    /// request that asked for `limit` conversations: the list was whole, or
    /// the slice came short.
    pub open spec fn is_last(self, limit: int) -> bool {
        match self {
            Dialogs::Dialogs { .. } => true,
            Dialogs::Slice { dialogs, .. } => dialogs@.len() < limit,
            Dialogs::NotModified { .. } => false,
        }
    }
}

/// Decodes the conversations of a page in order, or none of them where one
/// cannot be decoded.
pub fn decode_page(
    dialogs: Vec<RawDialog>,
    messages: Vec<Message>,
    chats: Vec<Chat>,
    users: Vec<User>,
) -> (decoded: Option<Vec<Dialog>>)
    ensures
        match decoded {
            Some(items) => decode_all(dialogs@, messages@, table(records(users@, chats@)))
                == Some(items@),
            None => decode_all(dialogs@, messages@, table(records(users@, chats@))) is None,
        },
{
    let ghost entities_of = table(records(users@, chats@));
    let entities: EntitySet = EntitySet::new(users, chats);
    let mut items: Vec<Dialog> = Vec::new();
    let mut i: usize = 0;
    while i < dialogs.len()
        invariant
            i <= dialogs@.len(),
            entities_of == table(records(users@, chats@)),
            entities@ == entities_of,
            items@.len() == i,
            forall|j: int|
                0 <= j < i ==> Dialog::decode(#[trigger] dialogs@[j], messages@, entities_of)
                    == Some(items@[j]),
        decreases dialogs@.len() - i,
    {
        match Dialog::new(dialogs[i], &messages, &entities) {
            Some(item) => {
                items.push(item);
            },
            None => {
                assert(!entities_of.dom().contains(dialogs@[i as int].peer));
                return None;
            },
        }
        i += 1;
    }
    proof {
        let all = decode_all(dialogs@, messages@, entities_of);
        assert forall|j: int| 0 <= j < dialogs@.len() implies entities_of.dom().contains(
            (#[trigger] dialogs@[j]).peer,
        ) by {
            assert(Dialog::decode(dialogs@[j], messages@, entities_of) is Some);
        }
        assert(all->Some_0 =~= items@);
    }
    Some(items)
}

} // verus!
