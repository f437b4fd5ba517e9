//! The last message of a conversation, and what it says about where the next
//! page of results begins.

use vstd::prelude::*;

verus! {

/// A message, as far as paging reads it.
#[derive(Clone, Copy, Debug, PartialEq, Eq)]
pub enum Message {
    /// A message that somebody sent.
    Message { id: i32, date: i32 },
    /// A notice of something that happened in the conversation.
    Service { id: i32, date: i32 },
    /// What is left in the place of a message: it has no date.
    Empty { id: i32 },
}

impl Message {
    pub open spec fn spec_id(&self) -> i32 {
        match *self {
            Message::Message { id, .. } => id,
            Message::Service { id, .. } => id,
            Message::Empty { id } => id,
        }
    }

    #[verifier::when_used_as_spec(spec_id)]
    pub fn id(&self) -> (id: i32)
        ensures
            id == self.spec_id(),
    {
        match *self {
            Message::Message { id, .. } => id,
            Message::Service { id, .. } => id,
            Message::Empty { id } => id,
        }
    }

    /// The date and the id at which the next page begins, when this is the
    /// last message seen and `prior_date` the date at which the page before
    /// began. A message without a date moves the id and leaves the date.
    pub open spec fn spec_offsets(&self, prior_date: i32) -> (i32, i32) {
        match *self {
            Message::Message { id, date } => (date, id),
            Message::Service { id, date } => (date, id),
            Message::Empty { id } => (prior_date, id),
        }
    }

    #[verifier::when_used_as_spec(spec_offsets)]
    pub fn offsets(&self, prior_date: i32) -> (offsets: (i32, i32))
        ensures
            offsets == self.spec_offsets(prior_date),
    {
        match *self {
            Message::Message { id, date } => (date, id),
            Message::Service { id, date } => (date, id),
            Message::Empty { id } => (prior_date, id),
        }
    }
}

} // verus!
