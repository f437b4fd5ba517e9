//! A conversation as a page of results lists it, and as the iterator hands it
//! out once its entity and its last message are found.

use crate::entity::{Entity, EntitySet};
use crate::message::Message;
use crate::peer::{InputPeer, Peer};
use vstd::prelude::*;

verus! {

/// A conversation as the server lists it: who it is with, and the id of the
/// newest message in it.
#[derive(Clone, Copy, Debug, PartialEq, Eq)]
pub struct RawDialog {
    pub peer: Peer,
    pub top_message: i32,
}

/// A conversation with all that belongs to it, to be used without looking
/// anything up again.
#[derive(Clone, Copy, Debug, PartialEq, Eq)]
pub struct Dialog {
    pub dialog: RawDialog,
    pub entity: Entity,
    pub last_message: Option<Message>,
}

/// The first of `messages` that has the id `id`.
pub open spec fn find_message(messages: Seq<Message>, id: i32) -> Option<Message>
    decreases messages.len(),
{
    if messages.len() == 0 {
        None
    } else if messages.first().id() == id {
        Some(messages.first())
    } else {
        find_message(messages.drop_first(), id)
    }
}

impl Dialog {
    /// The conversation that `dialog` lists, with its entity taken from
    /// `entities` and its last message from `messages`. There is none where
    /// `entities` does not hold whom the conversation is with.
    pub open spec fn decode(
        dialog: RawDialog,
        messages: Seq<Message>,
        entities: Map<Peer, Entity>,
    ) -> Option<Dialog> {
        if entities.dom().contains(dialog.peer) {
            Some(
                Dialog {
                    dialog,
                    entity: entities[dialog.peer],
                    last_message: find_message(messages, dialog.top_message),
                },
            )
        } else {
            None
        }
    }

    pub fn new(dialog: RawDialog, messages: &Vec<Message>, entities: &EntitySet) -> (decoded:
        Option<Dialog>)
        ensures
            decoded == Dialog::decode(dialog, messages@, entities@),
    {
        let entity: Entity = match entities.get(&dialog.peer) {
            Some(entity) => entity,
            None => {
                return None;
            },
        };
        let mut last_message: Option<Message> = None;
        let mut i: usize = 0;
        assert(messages@.skip(0) =~= messages@);
        while i < messages.len()
            invariant_except_break
                i <= messages@.len(),
                last_message is None,
                find_message(messages@, dialog.top_message) == find_message(
                    messages@.skip(i as int),
                    dialog.top_message,
                ),
            ensures
                last_message == find_message(messages@, dialog.top_message),
            decreases messages@.len() - i,
        {
            let message: Message = messages[i];
            assert(messages@.skip(i as int).first() == message);
            assert(messages@.skip(i as int).drop_first() =~= messages@.skip(i + 1));
            if message.id() == dialog.top_message {
                last_message = Some(message);
                break ;
            }
            i += 1;
        }
        Some(Dialog { dialog, entity, last_message })
    }

    /// How a request addresses this conversation.
    pub open spec fn spec_input_peer(&self) -> InputPeer {
        self.entity.to_input_peer()
    }

    #[verifier::when_used_as_spec(spec_input_peer)]
    pub fn input_peer(&self) -> (peer: InputPeer)
        ensures
            peer == self.spec_input_peer(),
    {
        self.entity.to_input_peer()
    }
}

} // verus!
