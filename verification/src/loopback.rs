//! Transport storing messages in local queue.
//!
//! It does not send messages anywhere: what is received from this transport
//! is what was sent into it, in the order of sending. It is reliable and
//! ordered, and serves as the plain case of the shared receive state.

use vstd::prelude::*;
use core::convert::Infallible;
use std::task::Waker;
use crate::common::{
    first_live, is_live, lemma_close_wf, lemma_first_live, lemma_poll_wf, lemma_release_wf,
    lemma_settled_wf, lemma_wake_next_wf, lemma_woken_count, lemma_woken_count_update,
    woken_count, Close, Model, Receive, State,
};
use crate::common::Closer as CloseOne;
use crate::common::Sender as SendOne;
use crate::error::Error;
use crate::poll::Polled;
use crate::transport::{Order, Reliable};

verus! {

/// Transport storing messages in local queue.
pub struct Transport<Message> {
    state: State<Message, Infallible>,
}

impl<Message> View for Transport<Message> {
    type V = Model<Message, Infallible>;

    closed spec fn view(&self) -> Model<Message, Infallible> {
        self.state@
    }
}

/// The state after a message was sent into an open carrier: the message is
/// queued last and the next waiter is woken. A closed carrier takes nothing.
pub open spec fn sent<Message, E>(model: Model<Message, E>, message: Message) -> Model<Message, E> {
    if model.closed {
        model
    } else {
        model.message(message).wake_next()
    }
}

impl<Message> Transport<Message> {
    /// The transport's state is well-formed.
    pub closed spec fn wf(&self) -> bool {
        self.state.wf()
    }

    /// What is well-formed of the transport is so of what the contracts show
    /// of it.
    pub proof fn lemma_wf(&self)
        requires
            self.wf(),
        ensures
            self@.wf(),
    {
        self.state.lemma_wf();
    }

    /// Creates new transport: open and empty.
    pub fn new() -> (transport: Self)
        ensures
            transport.wf(),
            transport@ == Model::<Message, Infallible>::new(),
    {
        Transport { state: State::new() }
    }

    /// Tells whether the transport was closed.
    pub fn is_closed(&self) -> (closed: bool)
        ensures
            closed == self@.closed,
    {
        self.state.is_closed()
    }

    /// The number of messages that were sent and not yet received.
    pub fn len(&self) -> (len: usize)
        ensures
            len == self@.queue.len(),
    {
        self.state.len()
    }

    /// Sends a message: it is queued behind those sent before it, and one
    /// waiting receiver is woken. A closed transport refuses it with
    /// `Closed` and stays as it is.
    pub fn send(&mut self, message: Message) -> (result: Result<(), Error<Infallible>>)
        requires
            old(self).wf(),
        ensures
            final(self).wf(),
            final(self)@ == sent(old(self)@, message),
            result == if old(self)@.closed {
                Err::<(), _>(Error::<Infallible>::Closed)
            } else {
                Ok(())
            },
            forall|receive: Receive| old(self).holds(&receive) ==> #[trigger] final(self).holds(
                &receive,
            ),
    {
        if self.state.is_closed() {
            Err(Error::Closed)
        } else {
            self.state.message(message);
            proof {
                self.state.lemma_wf();
                lemma_wake_next_wf(self.state@);
            }
            self.state.wake_next();
            Ok(())
        }
    }

    /// Starts a receive operation. It takes effect when it is polled.
    pub fn receive(&self) -> (receive: Receive)
        ensures
            !receive.terminated(),
            receive.ticket() is None,
            self.holds(&receive),
    {
        Receive::new()
    }

    /// The cell that the operation holds is there.
    pub closed spec fn holds(&self, receive: &Receive) -> bool {
        receive.wf(&self.state)
    }

    /// An operation holds its cell exactly if the cell is live in the state
    /// that the contracts show.
    pub proof fn lemma_holds(&self, receive: &Receive)
        ensures
            self.holds(receive) <==> (receive.ticket() matches Some(held) ==> self@.live(held)),
    {
    }

    /// Polls a receive operation of this transport, as [`Receive::poll`]
    /// says.
    pub fn poll_receive(&mut self, receive: &mut Receive, waker: &Waker) -> (polled: Polled<
        Result<Message, Error<Infallible>>,
    >)
        requires
            old(self).wf(),
            old(self).holds(old(receive)),
        ensures
            final(self).wf(),
            final(self).holds(final(receive)),
            old(receive).terminated() ==> polled is Pending && *final(receive) == *old(receive)
                && final(self)@ == old(self)@,
            !old(receive).terminated() ==> {
                &&& final(self)@ == old(self)@.poll(old(receive).ticket())
                &&& final(receive).ticket() == old(self)@.ticket_after_poll(old(receive).ticket())
                &&& match old(self)@.receivable() {
                    Some(result) => polled == Polled::Ready(result) && final(receive).terminated(),
                    None => polled is Pending && !final(receive).terminated(),
                }
            },
            forall|other: Receive|
                old(self).holds(&other) && (other.ticket() is Some ==> other.ticket() != old(
                    receive,
                ).ticket()) ==> #[trigger] final(self).holds(&other),
    {
        proof {
            self.state.lemma_wf();
            assert(self.state@.cells.len() <= usize::MAX) by {
                self.state.lemma_counted();
            }
            lemma_poll_wf(self.state@, receive.ticket());
        }
        receive.poll(&mut self.state, waker)
    }

    /// Ends a receive operation of this transport, as [`Receive::release`]
    /// says. The result is the ticket of the receiver that was woken in its
    /// place, if one was.
    pub fn cancel(&mut self, receive: &mut Receive) -> (woken: Option<usize>)
        requires
            old(self).wf(),
            old(self).holds(old(receive)),
        ensures
            final(self).wf(),
            final(receive).ticket() is None,
            final(receive).terminated() == old(receive).terminated(),
            match old(receive).ticket() {
                Some(held) => final(self)@ == old(self)@.release(held) && woken == old(self)@.heir(held),
                None => final(self)@ == old(self)@ && woken is None,
            },
            forall|other: Receive|
                old(self).holds(&other) && (other.ticket() is Some ==> other.ticket() != old(
                    receive,
                ).ticket()) ==> #[trigger] final(self).holds(&other),
    {
        proof {
            self.state.lemma_wf();
            match receive.ticket() {
                Some(held) => {
                    lemma_release_wf(self.state@, held);
                },
                None => {},
            }
        }
        receive.release(&mut self.state)
    }

    /// Closes the transport: nothing more can be sent, what is queued can
    /// still be received, and one waiting receiver is woken to see the end.
    /// Closing again changes nothing but to wake one more waiter.
    pub fn close(&mut self)
        requires
            old(self).wf(),
        ensures
            final(self).wf(),
            final(self)@ == old(self)@.close(),
            final(self)@.closed,
            forall|receive: Receive| old(self).holds(&receive) ==> #[trigger] final(self).holds(
                &receive,
            ),
    {
        proof {
            self.state.lemma_wf();
            lemma_close_wf(self.state@);
        }
        self.state.close();
    }

    /// Polls a close operation of this transport, as [`Close::poll`] says.
    pub fn poll_close(&mut self, close: &mut Close) -> (polled: Polled<()>)
        requires
            old(self).wf(),
        ensures
            final(self).wf(),
            polled == Polled::Ready(()),
            final(close).terminated(),
            final(self)@ == if old(close).terminated() {
                old(self)@
            } else {
                old(self)@.close()
            },
            forall|receive: Receive| old(self).holds(&receive) ==> #[trigger] final(self).holds(
                &receive,
            ),
    {
        proof {
            self.state.lemma_wf();
            lemma_close_wf(self.state@);
        }
        close.poll(&mut self.state)
    }
}

impl<Message> Default for Transport<Message> {
    fn default() -> (transport: Self)
        ensures
            transport.wf(),
            transport@ == Model::<Message, Infallible>::new(),
    {
        Transport::new()
    }
}

/// How a message is sent into a loopback transport at once.
pub struct Sender {}

impl<Message> SendOne<Transport<Message>, Message, Infallible> for Sender {
    open spec fn ready(transport: &Transport<Message>) -> bool {
        transport.wf()
    }

    open spec fn sends(
        before: &Transport<Message>,
        message: Message,
        after: &Transport<Message>,
        answer: Result<(), Error<Infallible>>,
    ) -> bool {
        &&& after@ == sent(before@, message)
        &&& answer == if before@.closed {
            Err::<(), _>(Error::<Infallible>::Closed)
        } else {
            Ok(())
        }
    }

    fn send(transport: &mut Transport<Message>, message: Message) -> (result: Result<
        (),
        Error<Infallible>,
    >) {
        transport.send(message)
    }
}

/// How a loopback transport is closed at once.
pub struct Closer {}

impl<Message> CloseOne<Transport<Message>> for Closer {
    open spec fn ready(transport: &Transport<Message>) -> bool {
        transport.wf()
    }

    open spec fn closes(before: &Transport<Message>, after: &Transport<Message>) -> bool {
        after@ == before@.close()
    }

    fn close(transport: &mut Transport<Message>) {
        transport.close()
    }
}

impl<Message> Reliable for Transport<Message> {

}

impl<Message> Order for Transport<Message> {

}

/// The state after each of the messages was sent, in their order.
pub open spec fn sent_all<Message, E>(model: Model<Message, E>, messages: Seq<Message>) -> Model<
    Message,
    E,
>
    decreases messages.len(),
{
    if messages.len() == 0 {
        model
    } else {
        sent_all(sent(model, messages.first()), messages.drop_first())
    }
}

/// The state after one poll by each of the receivers with the given tickets,
/// in their order.
pub open spec fn polled_all<Message, E>(model: Model<Message, E>, tickets: Seq<Option<usize>>) -> Model<
    Message,
    E,
>
    decreases tickets.len(),
{
    if tickets.len() == 0 {
        model
    } else {
        polled_all(model.poll(tickets.first()), tickets.drop_first())
    }
}

/// What those polls take from the queue, in the order of taking.
pub open spec fn delivered<Message, E>(model: Model<Message, E>, tickets: Seq<Option<usize>>) -> Seq<
    Result<Message, E>,
>
    decreases tickets.len(),
{
    if tickets.len() == 0 {
        Seq::empty()
    } else if model.queue.len() > 0 {
        seq![model.queue.first()] + delivered(model.poll(tickets.first()), tickets.drop_first())
    } else {
        delivered(model.poll(tickets.first()), tickets.drop_first())
    }
}

/// The messages as they stand in a queue: each one a success.
pub open spec fn queued<Message, E>(messages: Seq<Message>) -> Seq<Result<Message, E>> {
    messages.map_values(|message: Message| Ok::<Message, E>(message))
}

/// Sending into an open carrier adds the messages to the end of the queue, in
/// the order of sending, and leaves the carrier open.
pub proof fn lemma_sent_all<Message, E>(model: Model<Message, E>, messages: Seq<Message>)
    requires
        model.wf(),
        !model.closed,
    ensures
        sent_all(model, messages).wf(),
        !sent_all(model, messages).closed,
        sent_all(model, messages).queue == model.queue + queued::<Message, E>(messages),
    decreases messages.len(),
{
    if messages.len() == 0 {
        assert(model.queue + queued::<Message, E>(messages) =~= model.queue);
    } else {
        let next = sent(model, messages.first());
        assert forall|ticket: usize| #[trigger]
            model.message(messages.first()).parked(ticket) implies model.message(
            messages.first(),
        ).registry.contains(ticket) by {
            assert(model.parked(ticket));
        }
        lemma_wake_next_wf(model.message(messages.first()));
        lemma_sent_all(next, messages.drop_first());
        assert(model.queue.push(Ok(messages.first())) + queued::<Message, E>(
            messages.drop_first(),
        ) =~= model.queue + queued::<Message, E>(messages));
    }
}

/// Each queued result is handed to exactly one receiver: whatever receivers
/// poll, and however often, what they take followed by what stays queued is
/// what was queued, in its order. Nothing is lost and nothing comes twice.
pub proof fn lemma_delivered_once<Message, E>(model: Model<Message, E>, tickets: Seq<Option<usize>>)
    ensures
        delivered(model, tickets) + polled_all(model, tickets).queue == model.queue,
        polled_all(model, tickets).closed == model.closed,
        delivered(model, tickets).len() == if tickets.len() <= model.queue.len() {
            tickets.len()
        } else {
            model.queue.len()
        },
    decreases tickets.len(),
{
    if tickets.len() == 0 {
        assert(delivered(model, tickets) + model.queue =~= model.queue);
    } else {
        let next = model.poll(tickets.first());
        lemma_delivered_once(next, tickets.drop_first());
        if model.queue.len() > 0 {
            assert(seq![model.queue.first()] + delivered(next, tickets.drop_first()) + polled_all(
                next,
                tickets.drop_first(),
            ).queue =~= seq![model.queue.first()] + model.queue.drop_first());
            assert(seq![model.queue.first()] + model.queue.drop_first() =~= model.queue);
        }
    }
}

/// What is received equals what was sent: after any messages were sent into
/// an open, empty carrier, as many polls take exactly those messages, in the
/// order of sending, and leave the queue empty.
pub proof fn lemma_received_equals_sent<Message, E>(
    model: Model<Message, E>,
    messages: Seq<Message>,
    tickets: Seq<Option<usize>>,
)
    requires
        model.wf(),
        !model.closed,
        model.queue.len() == 0,
        tickets.len() == messages.len(),
    ensures
        delivered(sent_all(model, messages), tickets) == queued::<Message, E>(messages),
        polled_all(sent_all(model, messages), tickets).queue.len() == 0,
{
    lemma_sent_all(model, messages);
    let full = sent_all(model, messages);
    lemma_delivered_once(full, tickets);
    assert(full.queue =~= queued::<Message, E>(messages));
    assert(delivered(full, tickets) =~= full.queue);
}

/// Closing keeps what is queued, and a closed carrier takes no more: sending
/// into it changes nothing.
pub proof fn lemma_closed_takes_nothing<Message, E>(model: Model<Message, E>, message: Message)
    ensures
        model.close().closed,
        model.close().queue == model.queue,
        sent(model.close(), message) == model.close(),
{
}

/// What was queued before closing can still be received: after the close, as
/// many polls as there are queued results take all of them, in their order,
/// and the poll after that finds the end.
pub proof fn lemma_drained_after_close<Message, E>(
    model: Model<Message, E>,
    tickets: Seq<Option<usize>>,
)
    requires
        tickets.len() == model.queue.len(),
    ensures
        delivered(model.close(), tickets) == model.queue,
        polled_all(model.close(), tickets).receivable() == Some(
            Err::<Message, Error<E>>(Error::Closed),
        ),
{
    lemma_closed_takes_nothing::<Message, E>(model, arbitrary());
    lemma_delivered_once(model.close(), tickets);
    assert(delivered(model.close(), tickets) =~= model.queue);
}

/// Cancelling a receiver that was woken and has not polled since wakes the
/// receiver that has waited longest, so that what was queued is not left
/// without a receiver. Nobody is woken only where nobody waits.
pub proof fn lemma_cancel_hands_on<Message, E>(model: Model<Message, E>, ticket: usize)
    requires
        model.wf(),
        model.woken(ticket),
    ensures
        match model.heir(ticket) {
            Some(next) => {
                &&& next != ticket
                &&& model.parked(next)
                &&& model.release(ticket).woken(next)
                &&& !model.release(ticket).registry.contains(next)
            },
            None => forall|other: usize| !#[trigger] model.parked(other),
        },
{
    let without = Model { cells: model.cells.update(ticket as int, None), ..model };
    lemma_first_live(without.registry, without.cells);
    match first_live(without.registry, without.cells) {
        Some(place) => {
            let next = without.registry[place];
            let handed = without.wake_next();
            assert(!model.woken(model.registry[place]));
            assert forall|i: int| 0 <= i < handed.registry.len() implies handed.registry[i]
                != next by {
                assert(handed.registry[i] == model.registry[i + place + 1]);
            }
            assert forall|other: usize| #[trigger] without.parked(other) implies without.registry.contains(
                other,
            ) by {
                assert(model.parked(other));
            }
            lemma_wake_next_wf(without);
            lemma_settled_wf(handed);
            assert(handed.woken(next));
            assert(handed.settled().woken(next));
            assert(!handed.registry.contains(next));
        },
        None => {
            assert forall|other: usize| !#[trigger] model.parked(other) by {
                if model.parked(other) {
                    let at = choose|i: int|
                        0 <= i < model.registry.len() && model.registry[i] == other;
                    assert(is_live(without.cells, without.registry[at]));
                }
            }
        },
    }
}

/// Receivers are woken in the order of parking: of two receivers that park
/// one after the other while nobody else waits, the first is the next to be
/// woken, and the second is the next after it.
pub proof fn lemma_first_parked_first_woken<Message, E>(model: Model<Message, E>)
    requires
        model.wf(),
        model.cells.len() + 2 <= usize::MAX,
        !model.closed,
        model.queue.len() == 0,
        model.next_waiter() is None,
    ensures
        model.poll(None).poll(None).next_waiter() == model.ticket_after_poll(None),
        model.poll(None).poll(None).wake_next().next_waiter() == model.poll(
            None,
        ).ticket_after_poll(None),
{
    let first = model.cells.len() as usize;
    let one = model.poll(None);
    let second = one.cells.len() as usize;
    let two = one.poll(None);
    lemma_first_live(model.registry, model.cells);
    lemma_first_live(two.registry, two.cells);
    let count = model.registry.len() as int;
    assert(two.registry[count] == first);
    assert(two.registry[count + 1] == second);
    assert forall|i: int| 0 <= i < count implies !is_live(two.cells, #[trigger] two.registry[i]) by {
        assert(two.registry[i] == model.registry[i]);
        assert(!is_live(model.cells, model.registry[i]));
    }
    assert(is_live(two.cells, two.registry[count]));
    assert(first_live(two.registry, two.cells) == Some(count));
    let after = two.wake_next();
    assert(after.registry =~= seq![second]);
    lemma_first_live(after.registry, after.cells);
    assert(is_live(after.cells, after.registry[0]));
}

/// Waking the next waiter adds one woken receiver where somebody waits, and
/// changes no cell where nobody does. It makes nobody wait who did not.
pub proof fn lemma_wake_next_attends<Message, E>(model: Model<Message, E>)
    requires
        model.listed(),
    ensures
        model.wake_next().waiting() ==> model.waiting(),
        match model.next_waiter() {
            Some(_) => woken_count(model.wake_next().cells) == woken_count(model.cells) + 1,
            None => !model.waiting() && model.wake_next().cells == model.cells,
        },
{
    let after = model.wake_next();
    lemma_first_live(model.registry, model.cells);
    match first_live(model.registry, model.cells) {
        Some(place) => {
            let chosen = model.registry[place];
            assert(!model.woken(chosen));
            lemma_woken_count_update(model.cells, chosen as int, Some(true));
            if after.waiting() {
                let ticket = choose|ticket: usize| #[trigger] after.parked(ticket);
                assert(model.parked(ticket));
            }
        },
        None => {
            if model.waiting() {
                let ticket = choose|ticket: usize| #[trigger] model.parked(ticket);
                let at = choose|i: int| 0 <= i < model.registry.len() && model.registry[i] == ticket;
                assert(is_live(model.cells, model.registry[at]));
            }
            if after.waiting() {
                let ticket = choose|ticket: usize| #[trigger] after.parked(ticket);
                assert(model.parked(ticket));
            }
        },
    }
}

/// Settling makes nobody wait who did not, and where somebody waits it
/// changes nothing.
pub proof fn lemma_settled_attends<Message, E>(model: Model<Message, E>)
    ensures
        model.settled().waiting() ==> model.waiting() && model.settled() == model,
{
    if model.settled().waiting() {
        let ticket = choose|ticket: usize| #[trigger] model.settled().parked(ticket);
        if model.idle() {
            assert(model.settled().cells.len() == 0);
        }
        assert(model.parked(ticket));
    }
}

/// Sending keeps every queued result attended.
pub proof fn lemma_sent_attended<Message, E>(model: Model<Message, E>, message: Message)
    requires
        model.wf(),
        model.attended(),
    ensures
        sent(model, message).wf(),
        sent(model, message).attended(),
        sent(model, message).queue == if model.closed {
            model.queue
        } else {
            model.queue.push(Ok(message))
        },
{
    if !model.closed {
        let queued = model.message(message);
        assert forall|ticket: usize| #[trigger] queued.parked(ticket) implies queued.registry.contains(
            ticket,
        ) by {
            assert(model.parked(ticket));
        }
        assert(queued.idle() == model.idle());
        lemma_wake_next_wf(queued);
        lemma_wake_next_attends(queued);
        if queued.wake_next().waiting() {
            let ticket = choose|ticket: usize| #[trigger] queued.parked(ticket);
            assert(model.parked(ticket));
        }
    }
}

/// Closing keeps every queued result attended.
pub proof fn lemma_close_attended<Message, E>(model: Model<Message, E>)
    requires
        model.wf(),
        model.attended(),
    ensures
        model.close().wf(),
        model.close().attended(),
{
    let flagged = Model { closed: true, ..model };
    assert forall|ticket: usize| #[trigger] flagged.parked(ticket) implies flagged.registry.contains(
        ticket,
    ) by {
        assert(model.parked(ticket));
    }
    lemma_close_wf(model);
    lemma_wake_next_attends(flagged);
    if flagged.wake_next().waiting() {
        let ticket = choose|ticket: usize| #[trigger] flagged.parked(ticket);
        assert(model.parked(ticket));
    }
}

/// A poll keeps every queued result attended: a receiver that takes a result
/// takes with it at most its own wake-up.
pub proof fn lemma_poll_attended<Message, E>(model: Model<Message, E>, ticket: Option<usize>)
    requires
        model.wf(),
        model.attended(),
        ticket matches Some(held) ==> model.live(held),
        model.cells.len() <= usize::MAX,
    ensures
        model.poll(ticket).wf(),
        model.poll(ticket).attended(),
{
    lemma_poll_wf(model, ticket);
    let after = model.poll(ticket);
    if model.queue.len() > 0 {
        let taken = Model {
            queue: model.queue.drop_first(),
            cells: match ticket {
                Some(held) => model.cells.update(held as int, None),
                None => model.cells,
            },
            ..model
        };
        lemma_settled_attends(taken);
        if after.waiting() {
            let other = choose|other: usize| #[trigger] taken.parked(other);
            assert(model.parked(other));
            match ticket {
                Some(held) => {
                    lemma_woken_count_update(model.cells, held as int, None);
                },
                None => {},
            }
        }
    }
}

/// The going of a receiver keeps every queued result attended: the wake-up
/// that it takes with it is handed on.
pub proof fn lemma_release_attended<Message, E>(model: Model<Message, E>, ticket: usize)
    requires
        model.wf(),
        model.attended(),
        model.live(ticket),
    ensures
        model.release(ticket).wf(),
        model.release(ticket).attended(),
{
    lemma_release_wf(model, ticket);
    let without = Model { cells: model.cells.update(ticket as int, None), ..model };
    assert forall|other: usize| #[trigger] without.parked(other) implies without.registry.contains(
        other,
    ) by {
        assert(model.parked(other));
    }
    lemma_woken_count_update(model.cells, ticket as int, None);
    if model.woken(ticket) {
        let handed = without.wake_next();
        lemma_wake_next_attends(without);
        lemma_settled_attends(handed);
        if model.release(ticket).waiting() {
            let other = choose|other: usize| #[trigger] without.parked(other);
            assert(model.parked(other));
        }
    } else {
        lemma_settled_attends(without);
        if model.release(ticket).waiting() {
            let other = choose|other: usize| #[trigger] without.parked(other);
            assert(model.parked(other));
        }
    }
}

/// While something is queued and a receiver waits to be woken, some receiver
/// was woken and has not polled since: nothing that is queued is orphaned.
pub proof fn lemma_attended_is_woken<Message, E>(model: Model<Message, E>, waiting: usize)
    requires
        model.attended(),
        model.cells.len() <= usize::MAX,
        model.queue.len() > 0,
        model.parked(waiting),
    ensures
        exists|woken: usize| #[trigger] model.woken(woken),
{
    lemma_woken_count(model.cells);
    let at = choose|i: int| 0 <= i < model.cells.len() && #[trigger] model.cells[i] == Some(true);
    assert(model.woken(at as usize));
}

/// What can happen to a carrier.
pub enum Event<Message> {
    /// A message is sent.
    Send(Message),
    /// The receiver with this ticket polls, or one that has no ticket yet.
    Poll(Option<usize>),
    /// The receiver with this ticket goes away.
    Drop(usize),
    /// The carrier is closed.
    Close,
}

/// Whether the event can happen in this state: a receiver that polls or goes
/// away with a ticket holds its cell, and the tickets fit a machine word.
pub open spec fn permitted<Message, E>(model: Model<Message, E>, event: Event<Message>) -> bool {
    &&& model.cells.len() <= usize::MAX
    &&& match event {
        Event::Poll(Some(held)) => model.live(held),
        Event::Drop(held) => model.live(held),
        _ => true,
    }
}

/// The state after the event.
pub open spec fn happened<Message, E>(model: Model<Message, E>, event: Event<Message>) -> Model<
    Message,
    E,
> {
    match event {
        Event::Send(message) => sent(model, message),
        Event::Poll(ticket) => model.poll(ticket),
        Event::Drop(held) => model.release(held),
        Event::Close => model.close(),
    }
}

/// Whether each of the events can happen when its turn comes.
pub open spec fn run_permitted<Message, E>(model: Model<Message, E>, events: Seq<Event<Message>>) -> bool
    decreases events.len(),
{
    if events.len() == 0 {
        true
    } else {
        permitted(model, events.first()) && run_permitted(
            happened(model, events.first()),
            events.drop_first(),
        )
    }
}

/// The state after all of the events.
pub open spec fn after_run<Message, E>(model: Model<Message, E>, events: Seq<Event<Message>>) -> Model<
    Message,
    E,
>
    decreases events.len(),
{
    if events.len() == 0 {
        model
    } else {
        after_run(happened(model, events.first()), events.drop_first())
    }
}

/// How many of the events are sendings that the carrier accepted.
pub open spec fn accepted_in<Message, E>(model: Model<Message, E>, events: Seq<Event<Message>>) -> nat
    decreases events.len(),
{
    if events.len() == 0 {
        0
    } else {
        accepted_in(happened(model, events.first()), events.drop_first()) + if events.first() is Send
            && !model.closed {
            1nat
        } else {
            0nat
        }
    }
}

/// How many of the events are polls that took a result from the queue.
pub open spec fn received_in<Message, E>(model: Model<Message, E>, events: Seq<Event<Message>>) -> nat
    decreases events.len(),
{
    if events.len() == 0 {
        0
    } else {
        received_in(happened(model, events.first()), events.drop_first()) + if events.first() is Poll
            && model.queue.len() > 0 {
            1nat
        } else {
            0nat
        }
    }
}

/// Whatever happens to a carrier, in whatever order (messages sent,
/// receivers polling, receivers going away woken or not, the close), nothing
/// is lost and nothing is orphaned: what was received and what is still
/// queued are together what was queued and what was accepted since, and every
/// queued result stays attended.
pub proof fn lemma_run_attended<Message, E>(model: Model<Message, E>, events: Seq<Event<Message>>)
    requires
        model.wf(),
        model.attended(),
        run_permitted(model, events),
    ensures
        after_run(model, events).wf(),
        after_run(model, events).attended(),
        received_in(model, events) + after_run(model, events).queue.len() == model.queue.len()
            + accepted_in(model, events),
    decreases events.len(),
{
    if events.len() > 0 {
        let next = happened(model, events.first());
        match events.first() {
            Event::Send(message) => {
                lemma_sent_attended(model, message);
            },
            Event::Poll(ticket) => {
                lemma_poll_attended(model, ticket);
                if model.queue.len() > 0 {
                    let taken = Model {
                        queue: model.queue.drop_first(),
                        cells: match ticket {
                            Some(held) => model.cells.update(held as int, None),
                            None => model.cells,
                        },
                        ..model
                    };
                    assert(next.queue == taken.queue);
                }
            },
            Event::Drop(held) => {
                lemma_release_attended(model, held);
                lemma_release_wf(model, held);
            },
            Event::Close => {
                lemma_close_attended(model);
                lemma_close_wf(model);
            },
        }
        lemma_run_attended(next, events.drop_first());
    }
}

/// A carrier that was just created has every queued result attended: it has
/// none.
pub proof fn lemma_new_attended<Message, E>()
    ensures
        Model::<Message, E>::new().wf(),
        Model::<Message, E>::new().attended(),
{
    let model = Model::<Message, E>::new();
    if model.waiting() {
        let ticket = choose|ticket: usize| #[trigger] model.parked(ticket);
        assert(model.live(ticket));
    }
}

} // verus!
