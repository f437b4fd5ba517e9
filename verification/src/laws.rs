//! What holds of the iterator over any run of calls.

use crate::dialog::Dialog;
use crate::error::Error;
use crate::iter::{IterState, NextStep, TotalStep};
use crate::request::Dialogs;
use grammers_mtsender::InvocationError;
use vstd::prelude::*;

verus! {

impl IterState {
    /// The conversations that come out when `next` is called until it first
    /// comes back empty, and each request it returns is sent and answered
    /// with the next of `pages`, as long as there are any.
    pub open spec fn yielded(self, pages: Seq<Dialogs>) -> Seq<Dialog>
        decreases pages.len(), self.buffer.len(),
    {
        if self.buffer.len() > 0 {
            seq![self.buffer.first()] + self.next_step().0.yielded(pages)
        } else if !self.fetch_due() || pages.len() == 0 {
            Seq::empty()
        } else {
            match self.next_step().0.receive_step(Ok(pages.first())) {
                (after, Ok(Some(dialog))) => seq![dialog] + after.yielded(pages.drop_first()),
                _ => Seq::empty(),
            }
        }
    }

    /// This state once all of the buffer is handed out.
    pub open spec fn emptied(self) -> IterState {
        IterState {
            request: self.request,
            buffer: Seq::empty(),
            total: self.total,
            last_chunk: self.last_chunk,
            limit: match self.limit {
                Some(wanted) => Some(
                    if wanted >= self.buffer.len() {
                        (wanted - self.buffer.len()) as usize
                    } else {
                        0
                    },
                ),
                None => None,
            },
        }
    }

    /// The conversations of the pages that are fetched on the way to the
    /// end of the list, page after page, each page in the order in which it
    /// came. A page is fetched each time the buffer has run empty and the
    /// list is not over; a page that cannot be decoded ends the run.
    pub open spec fn fetched(self, pages: Seq<Dialogs>) -> Seq<Dialog>
        decreases pages.len(),
    {
        let idle = self.emptied();
        if !idle.fetch_due() || pages.len() == 0 {
            Seq::empty()
        } else {
            match idle.asking(idle.page_limit()).absorbed(pages.first()) {
                None => Seq::empty(),
                Some(filled) => pages.first().decoded()->Some_0 + filled.fetched(
                    pages.drop_first(),
                ),
            }
        }
    }
}

/// Handing out one conversation and then the rest of the buffer is handing
/// out the buffer.
proof fn lemma_popped_emptied(state: IterState)
    requires
        state.buffer.len() > 0,
    ensures
        state.popped().emptied() == state.emptied(),
{
    assert(state.popped().buffer.len() == state.buffer.len() - 1);
}

/// The order of the queue is kept: the conversations that come out are
/// those that were in the buffer, followed by those of the pages fetched,
/// page after page, each in the order in which the server listed it. None
/// is lost and none comes twice.
pub proof fn lemma_yields_in_order(state: IterState, pages: Seq<Dialogs>)
    ensures
        state.yielded(pages) == state.buffer + state.fetched(pages),
    decreases pages.len(), state.buffer.len(),
{
    if state.buffer.len() > 0 {
        let rest = state.popped();
        lemma_yields_in_order(rest, pages);
        lemma_popped_emptied(state);
        assert(seq![state.buffer.first()] + rest.buffer =~= state.buffer);
        assert(state.yielded(pages) =~= state.buffer + state.fetched(pages));
    } else {
        assert(state.buffer =~= Seq::<Dialog>::empty());
        assert(state.emptied() == state);
        if !state.fetch_due() || pages.len() == 0 {
            assert(state.yielded(pages) =~= state.buffer + state.fetched(pages));
        } else {
            let armed = state.asking(state.page_limit());
            assert(state.next_step().0 == armed);
            assert(armed.asking(armed.page_limit()) == armed);
            assert(armed.fetch_due());
            let page = pages.first();
            match armed.absorbed(page) {
                None => {
                    assert(state.yielded(pages) =~= state.buffer + state.fetched(pages));
                },
                Some(filled) => {
                    let items = page.decoded()->Some_0;
                    let later = pages.drop_first();
                    assert(filled.buffer =~= items);
                    assert(state.fetched(pages) == items + filled.fetched(later));
                    if items.len() > 0 {
                        let rest = filled.popped();
                        lemma_yields_in_order(rest, later);
                        lemma_popped_emptied(filled);
                        assert(rest.fetched(later) == filled.fetched(later));
                        assert(armed.receive_step(Ok(page)) == (
                            rest,
                            Ok::<Option<Dialog>, Error>(Some(items.first())),
                        ));
                        assert(state.yielded(pages) == seq![items.first()] + rest.yielded(later));
                        assert(seq![items.first()] + rest.buffer =~= items);
                        assert(state.yielded(pages) =~= state.buffer + state.fetched(pages));
                    } else {
                        assert(armed.request.limit >= 1);
                        assert(filled.last_chunk);
                        assert(!filled.emptied().fetch_due());
                        assert(filled.fetched(later) =~= Seq::<Dialog>::empty());
                        assert(armed.receive_step(Ok(page)) == (
                            filled,
                            Ok::<Option<Dialog>, Error>(None),
                        ));
                        assert(state.yielded(pages) =~= Seq::<Dialog>::empty());
                        assert(state.yielded(pages) =~= state.buffer + state.fetched(pages));
                    }
                },
            }
        }
    }
}

/// A total that is known is what `total` returns, without a request, and
/// no call changes it, with one exception: a page that is taken in and
/// reports another total.
pub proof fn lemma_total_is_kept(
    state: IterState,
    total: usize,
    response: Result<Dialogs, InvocationError>,
)
    requires
        state.total == Some(total),
        state.fetch_due() && response is Ok && response->Ok_0.decoded() is Some
            ==> response->Ok_0.reported_total() == total,
    ensures
        state.total_step() == (state, TotalStep::Known(total)),
        state.receive_total_step(response) == (state, Ok::<usize, Error>(total)),
        state.next_step().0.total == Some(total),
        state.receive_step(response).0.total == Some(total),
{
}

/// A total that is known stays known.
pub proof fn lemma_total_stays_known(state: IterState, response: Result<Dialogs, InvocationError>)
    requires
        state.total is Some,
    ensures
        state.next_step().0.total is Some,
        state.receive_step(response).0.total is Some,
        state.total_step().0.total is Some,
        state.receive_total_step(response).0.total is Some,
{
}

/// Once the last page has been fetched, that stays so: no call returns a
/// request for a page, and when the buffer has run empty every call for the
/// next conversation comes back empty and leaves everything as it is.
pub proof fn lemma_terminal_is_final(state: IterState, response: Result<Dialogs, InvocationError>)
    requires
        state.last_chunk,
    ensures
        state.next_step().1 is Ready,
        state.next_step().0.last_chunk,
        state.receive_step(response).0.last_chunk,
        state.total_step().0.last_chunk,
        state.receive_total_step(response).0.last_chunk,
        state.buffer.len() == 0 ==> state.next_step() == (state, NextStep::Ready(None)),
        state.buffer.len() == 0 ==> state.receive_step(response) == (
            state,
            Ok::<Option<Dialog>, Error>(None),
        ),
{
}

/// A page that brings nothing is the last one.
pub proof fn lemma_empty_page_is_last(state: IterState, page: Dialogs)
    requires
        state.fetch_due(),
        page.decoded() == Some(Seq::<Dialog>::empty()),
    ensures
        state.receive_step(Ok(page)).1 == Ok::<Option<Dialog>, Error>(None),
        state.receive_step(Ok(page)).0.last_chunk,
        state.receive_step(Ok(page)).0.request == state.asking(state.page_limit()).request,
{
    let armed = state.asking(state.page_limit());
    let filled = armed.absorbed(page)->Some_0;
    assert(filled.buffer =~= Seq::<Dialog>::empty());
}

/// The server may not answer that nothing has changed, since no request
/// names an earlier state: where such an answer is taken, the call fails,
/// and nothing but the limit of the request is touched.
pub proof fn lemma_not_modified_is_refused(state: IterState, count: usize)
    ensures
        state.fetch_due() ==> state.receive_step(Ok(Dialogs::NotModified { count })) == (
            state.asking(state.page_limit()),
            Err::<Option<Dialog>, Error>(Error::ProtocolContractViolation),
        ),
        state.total is None ==> state.receive_total_step(Ok(Dialogs::NotModified { count })) == (
            state.asking(1),
            Err::<usize, Error>(Error::ProtocolContractViolation),
        ),
{
}

/// A failure of the transport comes back as it is, and nothing but the
/// limit of the request is touched.
pub proof fn lemma_transport_error_is_handed_on(state: IterState, error: InvocationError)
    ensures
        state.fetch_due() ==> state.receive_step(Err(error)) == (
            state.asking(state.page_limit()),
            Err::<Option<Dialog>, Error>(Error::Transport(error)),
        ),
        state.total is None ==> state.receive_total_step(Err(error)) == (
            state.asking(1),
            Err::<usize, Error>(Error::Transport(error)),
        ),
{
}

/// No request names an earlier state: the hash is zero from the start, and
/// no call changes it.
pub proof fn lemma_hash_stays(state: IterState, response: Result<Dialogs, InvocationError>)
    ensures
        IterState::fresh().request.hash == 0,
        state.next_step().0.request.hash == state.request.hash,
        state.receive_step(response).0.request.hash == state.request.hash,
        state.total_step().0.request.hash == state.request.hash,
        state.receive_total_step(response).0.request.hash == state.request.hash,
{
}

} // verus!
