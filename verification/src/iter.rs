//! The iterator over the conversations of an account.
//!
//! The server hands the list out in pages, and says where a page begins by
//! what the page before ended with. [`DialogIter`] keeps the request for the
//! next page, the conversations fetched and not yet handed out, and what is
//! known of the end of the list. It sends nothing itself: [`DialogIter::next`]
//! and [`DialogIter::total`] say which request is due, and
//! [`DialogIter::receive`] and [`DialogIter::receive_total`] take the answer.

use crate::dialog::Dialog;
use crate::error::Error;
use crate::message::Message;
use crate::peer::InputPeer;
use crate::request::{decode_page, Dialogs, GetDialogs};
use grammers_mtsender::InvocationError;
use std::collections::VecDeque;
use vstd::prelude::*;

verus! {

/// The most conversations that one request asks for.
pub const MAX_LIMIT: usize = 100;

/// What a call of [`DialogIter::next`] comes to.
#[derive(Debug)]
pub enum NextStep {
    /// The next conversation, or `None` at the end of the list.
    Ready(Option<Dialog>),
    /// Nothing is at hand: this request is to be sent, and its answer given
    /// to [`DialogIter::receive`].
    Fetch(GetDialogs),
}

/// What a call of [`DialogIter::total`] comes to.
#[derive(Debug)]
pub enum TotalStep {
    /// The number of conversations, as last learnt.
    Known(usize),
    /// The number is not known yet: this request is to be sent, and its
    /// answer given to [`DialogIter::receive_total`].
    Fetch(GetDialogs),
}

/// All that an iterator holds, as a value to reason with.
pub struct IterState {
    /// The request for the next page.
    pub request: GetDialogs,
    /// The conversations fetched and not yet handed out, oldest first.
    pub buffer: Seq<Dialog>,
    /// The number of conversations in all, once it is known.
    pub total: Option<usize>,
    /// Whether the last page has been fetched.
    pub last_chunk: bool,
    /// How many conversations the caller still wants; `None` for all.
    pub limit: Option<usize>,
}

/// The last message that any of `buffer` carries, going from its end.
pub open spec fn newest_message(buffer: Seq<Dialog>) -> Option<Message>
    decreases buffer.len(),
{
    if buffer.len() == 0 {
        None
    } else if buffer.last().last_message is Some {
        buffer.last().last_message
    } else {
        newest_message(buffer.drop_last())
    }
}

/// The request for the page after the one that left `buffer`: pinned
/// conversations are left out from now on, the date and the id move to the
/// newest message that `buffer` carries, and the peer to the last
/// conversation in it.
pub open spec fn advanced(request: GetDialogs, buffer: Seq<Dialog>) -> GetDialogs
    recommends
        buffer.len() > 0,
{
    let offsets = match newest_message(buffer) {
        Some(message) => message.offsets(request.offset_date),
        None => (request.offset_date, request.offset_id),
    };
    GetDialogs {
        exclude_pinned: true,
        folder_id: request.folder_id,
        offset_date: offsets.0,
        offset_id: offsets.1,
        offset_peer: buffer.last().input_peer(),
        limit: request.limit,
        hash: request.hash,
    }
}

impl IterState {
    /// The state of an iterator that has fetched nothing yet.
    pub open spec fn fresh() -> IterState {
        IterState {
            request: GetDialogs {
                exclude_pinned: false,
                folder_id: None,
                offset_date: 0,
                offset_id: 0,
                offset_peer: InputPeer::Empty,
                limit: 0,
                hash: 0,
            },
            buffer: Seq::empty(),
            total: None,
            last_chunk: false,
            limit: None,
        }
    }

    /// Whether the caller has had as many conversations as it wanted.
    pub open spec fn exhausted(self) -> bool {
        self.limit == Some(0usize)
    }

    /// Whether the next conversation can only come from the server.
    pub open spec fn fetch_due(self) -> bool {
        self.buffer.len() == 0 && !self.last_chunk && !self.exhausted()
    }

    /// How many conversations the next request asks for: as many as the
    /// caller still wants, and [`MAX_LIMIT`] at most.
    pub open spec fn page_limit(self) -> i32 {
        match self.limit {
            Some(wanted) => if wanted < MAX_LIMIT {
                wanted as i32
            } else {
                MAX_LIMIT as i32
            },
            None => MAX_LIMIT as i32,
        }
    }

    /// This state with `limit` written into the request.
    pub open spec fn asking(self, limit: i32) -> IterState {
        IterState {
            request: GetDialogs {
                exclude_pinned: self.request.exclude_pinned,
                folder_id: self.request.folder_id,
                offset_date: self.request.offset_date,
                offset_id: self.request.offset_id,
                offset_peer: self.request.offset_peer,
                limit,
                hash: self.request.hash,
            },
            buffer: self.buffer,
            total: self.total,
            last_chunk: self.last_chunk,
            limit: self.limit,
        }
    }

    /// This state once the first conversation of the buffer is handed out.
    pub open spec fn popped(self) -> IterState
        recommends
            self.buffer.len() > 0,
    {
        IterState {
            request: self.request,
            buffer: self.buffer.drop_first(),
            total: self.total,
            last_chunk: self.last_chunk,
            limit: match self.limit {
                Some(wanted) => Some(
                    if wanted > 0 {
                        (wanted - 1) as usize
                    } else {
                        0
                    },
                ),
                None => None,
            },
        }
    }

    /// This state once `page` has come in answer to its request, before
    /// anything of the page is handed out. There is none where the page
    /// cannot be decoded.
    ///
    /// The conversations of the page go to the end of the buffer. The list
    /// is at its end if the page says so. The total becomes what the page
    /// reports, whatever it was. Where more is to come, the request moves on
    /// to the page after this one.
    pub open spec fn absorbed(self, page: Dialogs) -> Option<IterState> {
        match page.decoded() {
            None => None,
            Some(items) => {
                let buffer = self.buffer + items;
                let last_chunk = page.is_last(self.request.limit as int);
                Some(
                    IterState {
                        request: if !last_chunk && buffer.len() > 0 {
                            advanced(self.request, buffer)
                        } else {
                            self.request
                        },
                        buffer,
                        total: Some(page.reported_total()),
                        last_chunk,
                        limit: self.limit,
                    },
                )
            },
        }
    }

    /// What [`DialogIter::next`] does to this state, and what it returns.
    ///
    /// A conversation in the buffer is handed out. With none there, the list
    /// is over if its last page has been fetched or the caller has had as
    /// many as it wanted. Else a page is due.
    pub open spec fn next_step(self) -> (IterState, NextStep) {
        if self.buffer.len() > 0 {
            (self.popped(), NextStep::Ready(Some(self.buffer.first())))
        } else if self.last_chunk || self.exhausted() {
            (self, NextStep::Ready(None))
        } else {
            let armed = self.asking(self.page_limit());
            (armed, NextStep::Fetch(armed.request))
        }
    }

    /// What [`DialogIter::receive`] does to this state, and what it returns.
    ///
    /// Where no page is due, the answer is left aside and the call does
    /// what [`DialogIter::next`] does. Else a failure of the transport is
    /// handed on, an answer that cannot be decoded breaks the protocol, and
    /// a page is taken in and its first conversation handed out.
    pub open spec fn receive_step(self, response: Result<Dialogs, InvocationError>) -> (
        IterState,
        Result<Option<Dialog>, Error>,
    ) {
        if !self.fetch_due() {
            (self.next_step().0, Ok(self.next_step().1->Ready_0))
        } else {
            let armed = self.asking(self.page_limit());
            match response {
                Err(error) => (armed, Err(Error::Transport(error))),
                Ok(page) => match armed.absorbed(page) {
                    None => (armed, Err(Error::ProtocolContractViolation)),
                    Some(filled) => if filled.buffer.len() > 0 {
                        (filled.popped(), Ok(Some(filled.buffer.first())))
                    } else {
                        (filled, Ok(None))
                    },
                },
            }
        }
    }

    /// What [`DialogIter::total`] does to this state, and what it returns.
    pub open spec fn total_step(self) -> (IterState, TotalStep) {
        match self.total {
            Some(total) => (self, TotalStep::Known(total)),
            None => {
                let armed = self.asking(1);
                (armed, TotalStep::Fetch(armed.request))
            },
        }
    }

    /// What [`DialogIter::receive_total`] does to this state, and what it
    /// returns.
    ///
    /// A total that is known is returned, and the answer left aside. Else a
    /// failure of the transport is handed on, `NotModified` breaks the
    /// protocol, and any other page gives the total and nothing else.
    pub open spec fn receive_total_step(self, response: Result<Dialogs, InvocationError>) -> (
        IterState,
        Result<usize, Error>,
    ) {
        match self.total {
            Some(total) => (self, Ok(total)),
            None => {
                let armed = self.asking(1);
                match response {
                    Err(error) => (armed, Err(Error::Transport(error))),
                    Ok(Dialogs::NotModified { .. }) => (
                        armed,
                        Err(Error::ProtocolContractViolation),
                    ),
                    Ok(page) => (
                        IterState {
                            request: armed.request,
                            buffer: armed.buffer,
                            total: Some(page.reported_total()),
                            last_chunk: armed.last_chunk,
                            limit: armed.limit,
                        },
                        Ok(page.reported_total()),
                    ),
                }
            },
        }
    }
}

/// An iterator over the conversations of an account.
pub struct DialogIter {
    request: GetDialogs,
    buffer: VecDeque<Dialog>,
    total: Option<usize>,
    last_chunk: bool,
    limit: Option<usize>,
}

impl View for DialogIter {
    type V = IterState;

    closed spec fn view(&self) -> IterState {
        IterState {
            request: self.request,
            buffer: self.buffer@,
            total: self.total,
            last_chunk: self.last_chunk,
            limit: self.limit,
        }
    }
}

impl DialogIter {
    /// An iterator that starts at the top of the list.
    pub fn new() -> (iter: DialogIter)
        ensures
            iter@ == IterState::fresh(),
    {
        DialogIter {
            request: GetDialogs {
                exclude_pinned: false,
                folder_id: None,
                offset_date: 0,
                offset_id: 0,
                offset_peer: InputPeer::Empty,
                limit: 0,
                hash: 0,
            },
            buffer: VecDeque::with_capacity(MAX_LIMIT),
            total: None,
            last_chunk: false,
            limit: None,
        }
    }

    /// Makes the iterator ask the server for `wanted` more conversations and
    /// no more.
    pub fn limit(self, wanted: usize) -> (iter: DialogIter)
        ensures
            iter@ == (IterState {
                request: self@.request,
                buffer: self@.buffer,
                total: self@.total,
                last_chunk: self@.last_chunk,
                limit: Some(wanted),
            }),
    {
        DialogIter {
            request: self.request,
            buffer: self.buffer,
            total: self.total,
            last_chunk: self.last_chunk,
            limit: Some(wanted),
        }
    }

    /// The request for the next page, as it stands.
    pub fn request(&self) -> (request: &GetDialogs)
        ensures
            *request == self@.request,
    {
        &self.request
    }

    /// Whether the last page has been fetched.
    pub fn is_terminal(&self) -> (terminal: bool)
        ensures
            terminal == self@.last_chunk,
    {
        self.last_chunk
    }

    /// How many conversations are fetched and not yet handed out.
    pub fn buffered(&self) -> (n: usize)
        ensures
            n == self@.buffer.len(),
    {
        self.buffer.len()
    }

    /// Determines how many conversations there are in all.
    ///
    /// The number is returned where a page has told it already. Else the
    /// request that finds it out is returned, which asks for one
    /// conversation only.
    pub fn total(&mut self) -> (step: TotalStep)
        ensures
            final(self)@ == old(self)@.total_step().0,
            step == old(self)@.total_step().1,
    {
        match self.total {
            Some(total) => TotalStep::Known(total),
            None => {
                self.request.limit = 1;
                TotalStep::Fetch(self.request.clone())
            },
        }
    }

    /// Takes the answer to the request that [`DialogIter::total`] returned.
    pub fn receive_total(&mut self, response: Result<Dialogs, InvocationError>) -> (result: Result<
        usize,
        Error,
    >)
        ensures
            final(self)@ == old(self)@.receive_total_step(response).0,
            result == old(self)@.receive_total_step(response).1,
    {
        if let Some(total) = self.total {
            return Ok(total);
        }
        self.request.limit = 1;
        let total: usize = match response {
            Err(error) => {
                return Err(Error::Transport(error));
            },
            Ok(Dialogs::Dialogs { dialogs, .. }) => dialogs.len(),
            Ok(Dialogs::Slice { count, .. }) => count,
            Ok(Dialogs::NotModified { .. }) => {
                return Err(Error::ProtocolContractViolation);
            },
        };
        self.total = Some(total);
        Ok(total)
    }

    /// Returns the next conversation from the buffer, or the request that
    /// fills the buffer where it is empty and the list is not over.
    pub fn next(&mut self) -> (step: NextStep)
        ensures
            final(self)@ == old(self)@.next_step().0,
            step == old(self)@.next_step().1,
    {
        if !self.fetch_due() {
            return NextStep::Ready(self.pop_item());
        }
        self.request.limit = self.page_limit();
        NextStep::Fetch(self.request.clone())
    }

    /// Takes the answer to the request that [`DialogIter::next`] returned,
    /// and returns the next conversation.
    pub fn receive(&mut self, response: Result<Dialogs, InvocationError>) -> (result: Result<
        Option<Dialog>,
        Error,
    >)
        ensures
            final(self)@ == old(self)@.receive_step(response).0,
            result == old(self)@.receive_step(response).1,
    {
        if !self.fetch_due() {
            return Ok(self.pop_item());
        }
        let limit: i32 = self.page_limit();
        self.request.limit = limit;
        let ghost armed = self@;
        let page: Dialogs = match response {
            Err(error) => {
                return Err(Error::Transport(error));
            },
            Ok(page) => page,
        };
        let (last_chunk, total, dialogs, messages, chats, users) = match page {
            Dialogs::Dialogs { dialogs, messages, chats, users } => (
                true,
                dialogs.len(),
                dialogs,
                messages,
                chats,
                users,
            ),
            Dialogs::Slice { count, dialogs, messages, chats, users } => (
                dialogs.len() < limit as usize,
                count,
                dialogs,
                messages,
                chats,
                users,
            ),
            Dialogs::NotModified { .. } => {
                return Err(Error::ProtocolContractViolation);
            },
        };
        let items: Vec<Dialog> = match decode_page(dialogs, messages, chats, users) {
            Some(items) => items,
            None => {
                return Err(Error::ProtocolContractViolation);
            },
        };
        self.extend(&items);
        self.last_chunk = last_chunk;
        self.total = Some(total);
        if !self.last_chunk && self.buffer.len() > 0 {
            self.advance();
        }
        proof {
            assert(armed.buffer + items@ =~= items@);
            assert(self@ == armed.absorbed(page)->Some_0);
        }
        Ok(self.pop_item())
    }

    /// Whether the next conversation can only come from the server.
    fn fetch_due(&self) -> (due: bool)
        ensures
            due == self@.fetch_due(),
    {
        self.buffer.len() == 0 && !self.last_chunk && !matches!(self.limit, Some(0))
    }

    /// How many conversations the next request asks for.
    fn page_limit(&self) -> (limit: i32)
        ensures
            limit == self@.page_limit(),
            self@.fetch_due() ==> 1 <= limit <= MAX_LIMIT,
    {
        match self.limit {
            Some(wanted) => if wanted < MAX_LIMIT {
                wanted as i32
            } else {
                MAX_LIMIT as i32
            },
            None => MAX_LIMIT as i32,
        }
    }

    /// Hands out the first conversation of the buffer, if there is one.
    fn pop_item(&mut self) -> (item: Option<Dialog>)
        ensures
            old(self)@.buffer.len() > 0 ==> item == Some(old(self)@.buffer.first())
                && final(self)@ == old(self)@.popped(),
            old(self)@.buffer.len() == 0 ==> item is None && final(self)@ == old(self)@,
    {
        match self.buffer.pop_front() {
            Some(item) => {
                if let Some(wanted) = self.limit {
                    if wanted > 0 {
                        self.limit = Some(wanted - 1);
                    }
                }
                assert(self.buffer@ =~= old(self).buffer@.drop_first());
                Some(item)
            },
            None => None,
        }
    }

    /// Puts `items` at the end of the buffer, in order.
    fn extend(&mut self, items: &Vec<Dialog>)
        ensures
            final(self)@ == (IterState {
                request: old(self)@.request,
                buffer: old(self)@.buffer + items@,
                total: old(self)@.total,
                last_chunk: old(self)@.last_chunk,
                limit: old(self)@.limit,
            }),
    {
        let mut i: usize = 0;
        while i < items.len()
            invariant
                i <= items@.len(),
                self.buffer@ == old(self).buffer@ + items@.take(i as int),
                self.request == old(self).request,
                self.total == old(self).total,
                self.last_chunk == old(self).last_chunk,
                self.limit == old(self).limit,
            decreases items@.len() - i,
        {
            self.buffer.push_back(items[i]);
            i += 1;
            assert(self.buffer@ =~= old(self).buffer@ + items@.take(i as int));
        }
        assert(items@.take(items@.len() as int) =~= items@);
    }

    /// Moves the request on to the page after the one in the buffer.
    fn advance(&mut self)
        requires
            old(self)@.buffer.len() > 0,
        ensures
            final(self)@ == (IterState {
                request: advanced(old(self)@.request, old(self)@.buffer),
                buffer: old(self)@.buffer,
                total: old(self)@.total,
                last_chunk: old(self)@.last_chunk,
                limit: old(self)@.limit,
            }),
    {
        self.request.exclude_pinned = true;
        let mut i: usize = self.buffer.len();
        assert(self.buffer@.take(i as int) =~= self.buffer@);
        while i > 0
            invariant_except_break
                i <= self.buffer@.len(),
                newest_message(self.buffer@) == newest_message(self.buffer@.take(i as int)),
                self.request.offset_date == old(self).request.offset_date,
                self.request.offset_id == old(self).request.offset_id,
            invariant
                self.buffer == old(self).buffer,
                self.request.exclude_pinned,
                self.request.folder_id == old(self).request.folder_id,
                self.request.offset_peer == old(self).request.offset_peer,
                self.request.limit == old(self).request.limit,
                self.request.hash == old(self).request.hash,
                self.total == old(self).total,
                self.last_chunk == old(self).last_chunk,
                self.limit == old(self).limit,
            ensures
                self.request.offset_date == advanced(
                    old(self)@.request,
                    old(self)@.buffer,
                ).offset_date,
                self.request.offset_id == advanced(old(self)@.request, old(self)@.buffer).offset_id,
            decreases i,
        {
            let dialog: Dialog = self.buffer[i - 1];
            assert(self.buffer@.take(i as int).last() == dialog);
            assert(self.buffer@.take(i as int).drop_last() =~= self.buffer@.take(i - 1));
            if let Some(message) = dialog.last_message {
                let offsets: (i32, i32) = message.offsets(self.request.offset_date);
                self.request.offset_date = offsets.0;
                self.request.offset_id = offsets.1;
                break ;
            }
            i -= 1;
        }
        let last: Dialog = self.buffer[self.buffer.len() - 1];
        self.request.offset_peer = last.input_peer();
    }
}

} // verus!
