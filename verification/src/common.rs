//! The receive state that in-memory carriers share between their operations:
//! a queue of results that wait to be received, and a registry of the
//! receivers that wait for them.
//!
//! A receiver that finds nothing to receive parks: it leaves a waker cell with
//! the state and keeps the cell's ticket. The registry lists the tickets in
//! the order of parking. A cell goes away with its receiver; its ticket may
//! stay behind in the registry and is skipped when the next receiver is woken.
//! Each arrival wakes one receiver, not all of them. Whenever the last cell
//! has gone, the tickets start again from zero and what the state kept of the
//! old ones is let go. Until then the state keeps a place for each ticket that
//! it gave out.

use vstd::prelude::*;
use std::collections::VecDeque;
use std::task::Waker;
use crate::error::Error as TransportError;
use crate::poll::Polled;
use crate::waker::{clone_waker, wake_by_ref, will_wake};

verus! {

/// A receiver's wake handle, and whether it was used since the receiver last
/// polled.
pub struct ReceiveWaker {
    pub waker: Waker,
    pub woken: bool,
}

impl ReceiveWaker {
    /// A cell for a receiver that has just parked.
    pub fn new(waker: Waker) -> (cell: Self)
        ensures
            cell.waker == waker,
            !cell.woken,
    {
        ReceiveWaker { waker, woken: false }
    }

    /// Takes in the handle that is to replace the one that is held, if one
    /// is.
    pub fn replace(&mut self, fresh: Option<Waker>)
        ensures
            final(self).woken == old(self).woken,
            final(self).waker == match fresh {
                Some(waker) => waker,
                None => old(self).waker,
            },
    {
        match fresh {
            Some(waker) => {
                self.waker = waker;
            },
            None => {},
        }
    }

    /// Makes the cell wake the task of `waker`. The handle is replaced only
    /// where the one that is held may wake another task.
    pub fn update(&mut self, waker: &Waker)
        ensures
            final(self).woken == old(self).woken,
    {
        let fresh = if will_wake(&self.waker, waker) {
            None
        } else {
            Some(clone_waker(waker))
        };
        self.replace(fresh)
    }
}

/// Whether `ticket` has a cell among `cells`.
pub open spec fn is_live(cells: Seq<Option<bool>>, ticket: usize) -> bool {
    ticket < cells.len() && cells[ticket as int] is Some
}

/// The place in `registry` of the first ticket that still has a cell.
pub open spec fn first_live(registry: Seq<usize>, cells: Seq<Option<bool>>) -> Option<int>
    decreases registry.len(),
{
    if registry.len() == 0 {
        None
    } else if is_live(cells, registry.first()) {
        Some(0)
    } else {
        match first_live(registry.drop_first(), cells) {
            Some(place) => Some(place + 1),
            None => None,
        }
    }
}

/// What [`first_live`] finds: the ticket at that place has a cell and none
/// before it has one; where it finds nothing, no ticket has a cell.
pub proof fn lemma_first_live(registry: Seq<usize>, cells: Seq<Option<bool>>)
    ensures
        match first_live(registry, cells) {
            Some(place) => {
                &&& 0 <= place < registry.len()
                &&& is_live(cells, registry[place])
                &&& forall|i: int| 0 <= i < place ==> !is_live(cells, #[trigger] registry[i])
            },
            None => forall|i: int| 0 <= i < registry.len() ==> !is_live(cells, #[trigger] registry[i]),
        },
    decreases registry.len(),
{
    if registry.len() > 0 && !is_live(cells, registry.first()) {
        let rest = registry.drop_first();
        lemma_first_live(rest, cells);
        match first_live(rest, cells) {
            Some(place) => {
                assert forall|i: int| 0 <= i < place + 1 implies !is_live(
                    cells,
                    #[trigger] registry[i],
                ) by {
                    if i > 0 {
                        assert(registry[i] == rest[i - 1]);
                    }
                }
            },
            None => {
                assert forall|i: int| 0 <= i < registry.len() implies !is_live(
                    cells,
                    #[trigger] registry[i],
                ) by {
                    if i > 0 {
                        assert(registry[i] == rest[i - 1]);
                    }
                }
            },
        }
    }
}

/// The receive state as the contracts see it.
pub struct Model<Message, Error> {
    /// The results that wait to be received, oldest first.
    pub queue: Seq<Result<Message, Error>>,
    /// The tickets of parked receivers, in the order of parking. A ticket
    /// whose cell is gone is skipped.
    pub registry: Seq<usize>,
    /// For each ticket given out since the tickets last started from zero:
    /// nothing where its cell is gone, else whether its receiver was woken
    /// since it last polled.
    pub cells: Seq<Option<bool>>,
    /// Whether the carrier was closed.
    pub closed: bool,
}

impl<Message, Error> Model<Message, Error> {
    /// The state of a carrier that was just created.
    pub open spec fn new() -> Self {
        Model { queue: Seq::empty(), registry: Seq::empty(), cells: Seq::empty(), closed: false }
    }

    /// Whether the receiver with this ticket still holds its cell.
    pub open spec fn live(self, ticket: usize) -> bool {
        is_live(self.cells, ticket)
    }

    /// Whether the receiver with this ticket was woken and has not polled
    /// since.
    pub open spec fn woken(self, ticket: usize) -> bool {
        self.live(ticket) && self.cells[ticket as int] == Some(true)
    }

    /// Whether the receiver with this ticket waits to be woken.
    pub open spec fn parked(self, ticket: usize) -> bool {
        self.live(ticket) && !self.woken(ticket)
    }

    /// Whether some receiver waits to be woken.
    pub open spec fn waiting(self) -> bool {
        exists|ticket: usize| #[trigger] self.parked(ticket)
    }

    /// Nothing that is queued is without a receiver that knows of it: while
    /// any receiver waits to be woken, there are at least as many woken
    /// receivers as there are queued results.
    pub open spec fn attended(self) -> bool {
        self.waiting() ==> woken_count(self.cells) >= self.queue.len()
    }

    /// Whether no receiver holds a cell.
    pub open spec fn idle(self) -> bool {
        forall|i: int| 0 <= i < self.cells.len() ==> (#[trigger] self.cells[i]) is None
    }

    /// The state once a cell is gone: where it was the last one, the tickets
    /// start again and nothing of the old ones is left.
    pub open spec fn settled(self) -> Self {
        if self.idle() {
            Model { registry: Seq::empty(), cells: Seq::empty(), ..self }
        } else {
            self
        }
    }

    /// The registry lists tickets that were given out, each at most once;
    /// every receiver that waits to be woken is listed, and none that was
    /// woken already. While no receiver holds a cell, no ticket is out.
    pub open spec fn wf(self) -> bool {
        &&& self.listed()
        &&& self.idle() ==> self.cells.len() == 0 && self.registry.len() == 0
    }

    /// The registry lists tickets that were given out, each at most once;
    /// every receiver that waits to be woken is listed, and none that was
    /// woken already.
    pub open spec fn listed(self) -> bool {
        &&& forall|i: int| 0 <= i < self.registry.len() ==> #[trigger] self.registry[i] < self.cells.len()
        &&& self.registry.no_duplicates()
        &&& forall|ticket: usize| #[trigger] self.parked(ticket) ==> self.registry.contains(ticket)
        &&& forall|i: int| 0 <= i < self.registry.len() ==> !self.woken(#[trigger] self.registry[i])
    }

    /// The state with one more message at the end of the queue.
    pub open spec fn message(self, message: Message) -> Self {
        Model { queue: self.queue.push(Ok(message)), ..self }
    }

    /// The state with one more error at the end of the queue.
    pub open spec fn error(self, error: Error) -> Self {
        Model { queue: self.queue.push(Err(error)), ..self }
    }

    /// The ticket that is woken next: the first in the registry that still
    /// has a cell.
    pub open spec fn next_waiter(self) -> Option<usize> {
        match first_live(self.registry, self.cells) {
            Some(place) => Some(self.registry[place]),
            None => None,
        }
    }

    /// The state after the next waiter was woken: the registry loses its
    /// tickets up to and including the waiter's, and the waiter's cell is
    /// marked. Where nobody waits the registry is left empty.
    pub open spec fn wake_next(self) -> Self {
        match first_live(self.registry, self.cells) {
            Some(place) => Model {
                registry: self.registry.skip(place + 1),
                cells: self.cells.update(self.registry[place] as int, Some(true)),
                ..self
            },
            None => Model { registry: Seq::empty(), ..self },
        }
    }

    /// The state after closing: the flag is set and one waiter is woken.
    pub open spec fn close(self) -> Self {
        Model { closed: true, ..self }.wake_next()
    }

    /// What a receiver gets when it polls: the oldest result in the queue;
    /// `Closed` where the queue is empty and the carrier closed; nothing yet
    /// where it is empty and open.
    pub open spec fn receivable(self) -> Option<Result<Message, TransportError<Error>>> {
        if self.queue.len() > 0 {
            Some(
                match self.queue.first() {
                    Ok(message) => Ok(message),
                    Err(error) => Err(TransportError::Other(error)),
                },
            )
        } else if self.closed {
            Some(Err(TransportError::Closed))
        } else {
            None
        }
    }

    /// The ticket that a receiver holds after it polled with `ticket`: none
    /// once it received a result; a fresh one where it parks for the first
    /// time; else the one it had.
    pub open spec fn ticket_after_poll(self, ticket: Option<usize>) -> Option<usize> {
        if self.queue.len() > 0 {
            None
        } else if self.closed {
            ticket
        } else if ticket is Some {
            ticket
        } else {
            Some(self.cells.len() as usize)
        }
    }

    /// The state after a receiver polled with `ticket`. A result is taken
    /// from the queue and the receiver's cell goes away; where it was the
    /// last cell, the state settles. On a closed, empty queue nothing
    /// changes. Else the receiver parks: a new receiver gets a cell and is
    /// listed last; one that was woken in vain is listed again, last; one
    /// that still waits keeps its place.
    pub open spec fn poll(self, ticket: Option<usize>) -> Self {
        if self.queue.len() > 0 {
            Model {
                queue: self.queue.drop_first(),
                cells: match ticket {
                    Some(held) => self.cells.update(held as int, None),
                    None => self.cells,
                },
                ..self
            }.settled()
        } else if self.closed {
            self
        } else {
            match ticket {
                Some(held) => Model {
                    registry: if self.woken(held) {
                        self.registry.push(held)
                    } else {
                        self.registry
                    },
                    cells: self.cells.update(held as int, Some(false)),
                    ..self
                },
                None => Model {
                    registry: self.registry.push(self.cells.len() as usize),
                    cells: self.cells.push(Some(false)),
                    ..self
                },
            }
        }
    }

    /// The ticket that is woken when the receiver with `ticket` goes away:
    /// the next waiter's, where that receiver had been woken without polling
    /// since; else none.
    pub open spec fn heir(self, ticket: usize) -> Option<usize> {
        if self.woken(ticket) {
            Model { cells: self.cells.update(ticket as int, None), ..self }.next_waiter()
        } else {
            None
        }
    }

    /// The state after the receiver with `ticket` went away: its cell is
    /// gone, and where it had been woken without polling since, the next
    /// waiter is woken in its place. Where the cell was the last one, the
    /// state settles.
    pub open spec fn release(self, ticket: usize) -> Self {
        let without = Model { cells: self.cells.update(ticket as int, None), ..self };
        if self.woken(ticket) {
            without.wake_next().settled()
        } else {
            without.settled()
        }
    }
}

/// The number of cells that are there.
pub open spec fn live_count(cells: Seq<Option<bool>>) -> nat
    decreases cells.len(),
{
    if cells.len() == 0 {
        0
    } else if cells.last() is Some {
        live_count(cells.drop_last()) + 1
    } else {
        live_count(cells.drop_last())
    }
}

/// There are no more cells than tickets, and none exactly if every ticket's
/// cell is gone.
pub proof fn lemma_live_count(cells: Seq<Option<bool>>)
    ensures
        live_count(cells) <= cells.len(),
        live_count(cells) == 0 <==> (forall|i: int|
            0 <= i < cells.len() ==> (#[trigger] cells[i]) is None),
    decreases cells.len(),
{
    if cells.len() > 0 {
        let front = cells.drop_last();
        lemma_live_count(front);
        if live_count(cells) == 0 {
            assert forall|i: int| 0 <= i < cells.len() implies (#[trigger] cells[i]) is None by {
                if i < front.len() {
                    assert(front[i] is None);
                }
            }
        } else if cells.last() is None {
            let at = choose|i: int| 0 <= i < front.len() && !((#[trigger] front[i]) is None);
            assert(!(cells[at] is None));
        }
    }
}

/// A new ticket's cell counts as one more.
pub proof fn lemma_live_count_push(cells: Seq<Option<bool>>, cell: Option<bool>)
    ensures
        live_count(cells.push(cell)) == live_count(cells) + if cell is Some {
            1nat
        } else {
            0nat
        },
{
    assert(cells.push(cell).drop_last() =~= cells);
}

/// Changing one cell changes the count by what goes and what comes.
pub proof fn lemma_live_count_update(cells: Seq<Option<bool>>, at: int, cell: Option<bool>)
    requires
        0 <= at < cells.len(),
    ensures
        live_count(cells.update(at, cell)) + (if cells[at] is Some {
            1nat
        } else {
            0nat
        }) == live_count(cells) + if cell is Some {
            1nat
        } else {
            0nat
        },
    decreases cells.len(),
{
    let changed = cells.update(at, cell);
    if at == cells.len() - 1 {
        assert(changed.drop_last() =~= cells.drop_last());
    } else {
        lemma_live_count_update(cells.drop_last(), at, cell);
        assert(changed.drop_last() =~= cells.drop_last().update(at, cell));
    }
}

/// The number of cells whose receiver was woken and has not polled since.
pub open spec fn woken_count(cells: Seq<Option<bool>>) -> nat
    decreases cells.len(),
{
    if cells.len() == 0 {
        0
    } else if cells.last() == Some(true) {
        woken_count(cells.drop_last()) + 1
    } else {
        woken_count(cells.drop_last())
    }
}

/// Where the count of woken cells is not zero, there is a woken cell.
pub proof fn lemma_woken_count(cells: Seq<Option<bool>>)
    ensures
        woken_count(cells) > 0 ==> exists|i: int|
            0 <= i < cells.len() && #[trigger] cells[i] == Some(true),
    decreases cells.len(),
{
    if cells.len() > 0 {
        let front = cells.drop_last();
        lemma_woken_count(front);
        if cells.last() == Some(true) {
            assert(cells[cells.len() - 1] == Some(true));
        } else if woken_count(cells) > 0 {
            let at = choose|i: int| 0 <= i < front.len() && #[trigger] front[i] == Some(true);
            assert(cells[at] == Some(true));
        }
    }
}

/// A new cell that is not woken leaves the count of woken cells as it is.
pub proof fn lemma_woken_count_push(cells: Seq<Option<bool>>, cell: Option<bool>)
    ensures
        woken_count(cells.push(cell)) == woken_count(cells) + if cell == Some(true) {
            1nat
        } else {
            0nat
        },
{
    assert(cells.push(cell).drop_last() =~= cells);
}

/// Changing one cell changes the count of woken cells by what goes and what
/// comes.
pub proof fn lemma_woken_count_update(cells: Seq<Option<bool>>, at: int, cell: Option<bool>)
    requires
        0 <= at < cells.len(),
    ensures
        woken_count(cells.update(at, cell)) + (if cells[at] == Some(true) {
            1nat
        } else {
            0nat
        }) == woken_count(cells) + if cell == Some(true) {
            1nat
        } else {
            0nat
        },
    decreases cells.len(),
{
    let changed = cells.update(at, cell);
    if at == cells.len() - 1 {
        assert(changed.drop_last() =~= cells.drop_last());
    } else {
        lemma_woken_count_update(cells.drop_last(), at, cell);
        assert(changed.drop_last() =~= cells.drop_last().update(at, cell));
    }
}

/// Settling keeps what is listed and makes the state well-formed. It changes
/// neither the queue nor the flag, and no cell comes or goes.
pub proof fn lemma_settled_wf<Message, Error>(model: Model<Message, Error>)
    requires
        model.listed(),
    ensures
        model.settled().wf(),
        model.settled().queue == model.queue,
        model.settled().closed == model.closed,
        forall|ticket: usize| #[trigger] model.settled().live(ticket) == model.live(ticket),
        forall|ticket: usize| #[trigger] model.settled().woken(ticket) == model.woken(ticket),
        forall|ticket: usize|
            model.settled().registry.contains(ticket) ==> #[trigger] model.registry.contains(
                ticket,
            ),
{
    if model.idle() {
        assert forall|ticket: usize| !#[trigger] model.live(ticket) by {
            if ticket < model.cells.len() {
                assert(model.cells[ticket as int] is None);
            }
        }
    }
}

/// Waking the next waiter keeps the state well-formed. It changes neither the
/// queue nor the flag, and no cell comes or goes.
pub proof fn lemma_wake_next_wf<Message, Error>(model: Model<Message, Error>)
    requires
        model.listed(),
    ensures
        model.wake_next().listed(),
        model.wf() ==> model.wake_next().wf(),
        model.wake_next().queue == model.queue,
        model.wake_next().closed == model.closed,
        model.wake_next().cells.len() == model.cells.len(),
        forall|ticket: usize| #[trigger] model.wake_next().live(ticket) == model.live(ticket),
{
    let after = model.wake_next();
    lemma_first_live(model.registry, model.cells);
    match first_live(model.registry, model.cells) {
        Some(place) => {
            let chosen = model.registry[place];
            assert forall|ticket: usize| #[trigger] after.parked(ticket) implies after.registry.contains(
                ticket,
            ) by {
                assert(model.parked(ticket));
                let at = choose|i: int| 0 <= i < model.registry.len() && model.registry[i] == ticket;
                assert(at > place);
                assert(after.registry[at - place - 1] == ticket);
            }
            assert forall|i: int| 0 <= i < after.registry.len() implies !after.woken(
                #[trigger] after.registry[i],
            ) by {
                assert(after.registry[i] == model.registry[i + place + 1]);
            }
            assert(after.cells[chosen as int] is Some);
        },
        None => {
            assert forall|ticket: usize| #[trigger] after.parked(ticket) implies after.registry.contains(
                ticket,
            ) by {
                if model.parked(ticket) {
                    let at = choose|i: int|
                        0 <= i < model.registry.len() && model.registry[i] == ticket;
                    assert(is_live(model.cells, model.registry[at]));
                }
            }
            if model.wf() && after.idle() {
                assert(model.idle());
            }
        },
    }
}

/// Closing keeps the state well-formed. It changes the queue not at all, and
/// no cell comes or goes.
pub proof fn lemma_close_wf<Message, Error>(model: Model<Message, Error>)
    requires
        model.wf(),
    ensures
        model.close().wf(),
        model.close().closed,
        model.close().queue == model.queue,
        forall|ticket: usize| #[trigger] model.close().live(ticket) == model.live(ticket),
{
    let flagged = Model { closed: true, ..model };
    assert forall|ticket: usize| #[trigger] flagged.parked(ticket) implies flagged.registry.contains(
        ticket,
    ) by {
        assert(model.parked(ticket));
    }
    assert(flagged.idle() == model.idle());
    lemma_wake_next_wf(flagged);
    assert forall|ticket: usize| #[trigger] model.close().live(ticket) == model.live(ticket) by {
        assert(flagged.wake_next().live(ticket) == flagged.live(ticket));
    }
}

/// A poll keeps the state well-formed.
pub proof fn lemma_poll_wf<Message, Error>(model: Model<Message, Error>, ticket: Option<usize>)
    requires
        model.wf(),
        ticket matches Some(held) ==> model.live(held),
        model.cells.len() <= usize::MAX,
    ensures
        model.poll(ticket).wf(),
        model.ticket_after_poll(ticket) matches Some(held) ==> model.poll(ticket).live(held),
        forall|other: usize|
            model.live(other) && ticket != Some(other) ==> #[trigger] model.poll(ticket).live(
                other,
            ),
{
    let after = model.poll(ticket);
    if model.queue.len() > 0 {
        let taken = Model {
            queue: model.queue.drop_first(),
            cells: match ticket {
                Some(held) => model.cells.update(held as int, None),
                None => model.cells,
            },
            ..model
        };
        assert forall|other: usize| #[trigger] taken.parked(other) implies taken.registry.contains(
            other,
        ) by {
            assert(model.parked(other));
        }
        lemma_settled_wf(taken);
        assert forall|other: usize| model.live(other) && ticket != Some(other) implies #[trigger]
            after.live(other) by {
            assert(taken.live(other));
            assert(taken.settled().live(other) == taken.live(other));
        }
    } else if model.closed {
    } else {
        match ticket {
            Some(held) => {
                assert(after.cells[held as int] is Some);
                if model.woken(held) {
                    assert forall|i: int| 0 <= i < model.registry.len() implies model.registry[i]
                        != held by {
                        assert(!model.woken(model.registry[i]));
                    }
                    assert forall|other: usize| #[trigger]
                        after.parked(other) implies after.registry.contains(other) by {
                        if other == held {
                            assert(after.registry[model.registry.len() as int] == held);
                        } else {
                            assert(model.parked(other));
                            let at = choose|i: int|
                                0 <= i < model.registry.len() && model.registry[i] == other;
                            assert(after.registry[at] == other);
                        }
                    }
                } else {
                    assert(model.parked(held));
                    assert forall|other: usize| #[trigger]
                        after.parked(other) implies after.registry.contains(other) by {
                        if other != held {
                            assert(model.parked(other));
                        }
                    }
                }
            },
            None => {
                let fresh = model.cells.len() as usize;
                assert(after.cells[fresh as int] is Some);
                assert forall|other: usize| #[trigger] after.parked(other) implies after.registry.contains(
                    other,
                ) by {
                    if other == fresh {
                        assert(after.registry[model.registry.len() as int] == fresh);
                    } else {
                        assert(model.parked(other));
                        let at = choose|i: int|
                            0 <= i < model.registry.len() && model.registry[i] == other;
                        assert(after.registry[at] == other);
                    }
                }
            },
        }
    }
}

/// The going of a receiver keeps the state well-formed.
pub proof fn lemma_release_wf<Message, Error>(model: Model<Message, Error>, ticket: usize)
    requires
        model.wf(),
        model.live(ticket),
    ensures
        model.release(ticket).wf(),
        !model.release(ticket).live(ticket),
        model.release(ticket).queue == model.queue,
        model.release(ticket).closed == model.closed,
        forall|other: usize|
            other != ticket ==> #[trigger] model.release(ticket).live(other) == model.live(other),
{
    let without = Model { cells: model.cells.update(ticket as int, None), ..model };
    assert(!without.live(ticket));
    assert forall|other: usize| other != ticket implies without.live(other) == model.live(
        other,
    ) by {}
    assert forall|other: usize| #[trigger] without.parked(other) implies without.registry.contains(
        other,
    ) by {
        assert(model.parked(other));
    }
    assert(without.listed());
    if model.woken(ticket) {
        lemma_wake_next_wf(without);
        lemma_settled_wf(without.wake_next());
        assert forall|other: usize| #[trigger]
            model.release(ticket).live(other) == without.live(other) by {
            assert(without.wake_next().settled().live(other) == without.wake_next().live(other));
            assert(without.wake_next().live(other) == without.live(other));
        }
    } else {
        lemma_settled_wf(without);
        assert forall|other: usize| #[trigger]
            model.release(ticket).live(other) == without.live(other) by {
            assert(without.settled().live(other) == without.live(other));
        }
    }
}

/// Transport state.
///
/// It holds what was sent and not yet received, and the cells of the
/// receivers that wait. Sending and closing through it complete at once.
pub struct State<Message, Error> {
    queue: VecDeque<Result<Message, Error>>,
    wakers: VecDeque<usize>,
    cells: Vec<Option<ReceiveWaker>>,
    live: usize,
    closed: bool,
}

/// What the contracts read of a cell: whether it is there, and whether it was
/// woken.
pub open spec fn cell_mark(cell: Option<ReceiveWaker>) -> Option<bool> {
    match cell {
        Some(held) => Some(held.woken),
        None => None,
    }
}

impl<Message, Error> View for State<Message, Error> {
    type V = Model<Message, Error>;

    closed spec fn view(&self) -> Model<Message, Error> {
        Model {
            queue: self.queue@,
            registry: self.wakers@,
            cells: self.cells@.map_values(|cell: Option<ReceiveWaker>| cell_mark(cell)),
            closed: self.closed,
        }
    }
}

impl<Message, Error> State<Message, Error> {
    /// The registry and the cells agree, as [`Model::wf`] says, and the
    /// cells are counted.
    pub closed spec fn wf(&self) -> bool {
        &&& self@.wf()
        &&& self.live == live_count(self@.cells)
    }

    /// What is well-formed of the state is so of what the contracts show of
    /// it.
    pub proof fn lemma_wf(&self)
        requires
            self.wf(),
        ensures
            self@.wf(),
    {
    }

    /// The tickets that are out can be counted in a machine word.
    pub proof fn lemma_counted(&self)
        ensures
            self@.cells.len() <= usize::MAX,
    {
        assert(self.cells@.len() == self.cells.len());
    }

    /// Create new state for transport: open, with nothing queued and nobody
    /// waiting.
    pub fn new() -> (state: Self)
        ensures
            state.wf(),
            state@ == Model::<Message, Error>::new(),
    {
        let state = State {
            queue: VecDeque::new(),
            wakers: VecDeque::new(),
            cells: Vec::new(),
            live: 0,
            closed: false,
        };
        assert(state@.cells =~= Seq::empty());
        state
    }

    /// Push received message into transport queue.
    pub fn message(&mut self, message: Message)
        requires
            old(self).wf(),
        ensures
            final(self).wf(),
            final(self)@ == old(self)@.message(message),
    {
        self.queue.push_back(Ok(message));
        assert(self@.cells == old(self)@.cells);
        assert forall|ticket: usize| #[trigger] self@.parked(ticket) implies self@.registry.contains(
            ticket,
        ) by {
            assert(old(self)@.parked(ticket));
        }
    }

    /// Push error into transport queue.
    pub fn error(&mut self, error: Error)
        requires
            old(self).wf(),
        ensures
            final(self).wf(),
            final(self)@ == old(self)@.error(error),
    {
        self.queue.push_back(Err(error));
        assert(self@.cells == old(self)@.cells);
        assert forall|ticket: usize| #[trigger] self@.parked(ticket) implies self@.registry.contains(
            ticket,
        ) by {
            assert(old(self)@.parked(ticket));
        }
    }

    /// Tells whether the transport was closed.
    pub fn is_closed(&self) -> (closed: bool)
        ensures
            closed == self@.closed,
    {
        self.closed
    }

    /// The number of results that wait to be received.
    pub fn len(&self) -> (len: usize)
        ensures
            len == self@.queue.len(),
    {
        self.queue.len()
    }

    /// Wake next receive waker.
    ///
    /// Tickets are taken from the front of the registry until one still has
    /// a cell; that receiver is marked as woken and its task is woken. The
    /// result is its ticket, or nothing where nobody waits.
    pub fn wake_next(&mut self) -> (woken: Option<usize>)
        requires
            old(self).wf(),
        ensures
            final(self).wf(),
            final(self)@ == old(self)@.wake_next(),
            woken == old(self)@.next_waiter(),
    {
        loop
            invariant
                self.wf(),
                self@.wake_next() == old(self)@.wake_next(),
                self@.next_waiter() == old(self)@.next_waiter(),
            decreases self.wakers.len(),
        {
            let ghost before = self@;
            match self.wakers.pop_front() {
                None => {
                    assert(self@.registry =~= Seq::empty());
                    return None;
                },
                Some(ticket) => {
                    assert(before.registry.drop_first() =~= self@.registry);
                    assert(ticket == before.registry.first());
                    match &mut self.cells[ticket] {
                        Some(cell) => {
                            cell.woken = true;
                            wake_by_ref(&cell.waker);
                            proof {
                                lemma_wake_next_wf(before);
                                lemma_live_count_update(before.cells, ticket as int, Some(true));
                                assert(before.registry.skip(1) =~= self@.registry);
                                assert(self@.cells =~= before.cells.update(
                                    ticket as int,
                                    Some(true),
                                ));
                            }
                            return Some(ticket);
                        },
                        None => {
                            proof {
                                assert(self@.cells =~= before.cells);
                                lemma_first_live(self@.registry, self@.cells);
                                match first_live(self@.registry, self@.cells) {
                                    Some(place) => {
                                        assert(before.registry.skip(place + 2)
                                            =~= self@.registry.skip(place + 1));
                                    },
                                    None => {},
                                }
                                assert forall|other: usize| #[trigger]
                                    self@.parked(other) implies self@.registry.contains(other) by {
                                    assert(before.parked(other));
                                    let at = choose|i: int|
                                        0 <= i < before.registry.len() && before.registry[i]
                                            == other;
                                    assert(self@.registry[at - 1] == other);
                                }
                                assert forall|i: int| 0 <= i < self@.registry.len() implies !self@.woken(
                                    #[trigger] self@.registry[i],
                                ) by {
                                    assert(self@.registry[i] == before.registry[i + 1]);
                                }
                                assert(!before.idle()) by {
                                    if before.idle() {
                                        assert(before.registry.len() == 0);
                                    }
                                }
                            }
                        },
                    }
                },
            }
        }
    }

    /// Signal that transport was closed: the flag is set, and one waiter is
    /// woken so that it sees the end. The result is that waiter's ticket.
    pub fn close(&mut self) -> (woken: Option<usize>)
        requires
            old(self).wf(),
        ensures
            final(self).wf(),
            final(self)@ == old(self)@.close(),
            final(self)@.closed,
            woken == (Model { closed: true, ..old(self)@ }).next_waiter(),
    {
        self.closed = true;
        assert(self@.cells == old(self)@.cells);
        assert forall|ticket: usize| #[trigger] self@.parked(ticket) implies self@.registry.contains(
            ticket,
        ) by {
            assert(old(self)@.parked(ticket));
        }
        self.wake_next()
    }
}

impl<Message, Error> Default for State<Message, Error> {
    fn default() -> (state: Self)
        ensures
            state.wf(),
            state@ == Model::<Message, Error>::new(),
    {
        State::new()
    }
}

/// Future returned by a carrier's `receive`: one receive operation, from its
/// first poll to its result or to its going away.
pub struct Receive {
    terminated: bool,
    waker: Option<usize>,
}

impl Receive {
    /// Whether the operation has given its result.
    pub closed spec fn terminated(&self) -> bool {
        self.terminated
    }

    /// The ticket of the cell that the operation holds, if it holds one.
    pub closed spec fn ticket(&self) -> Option<usize> {
        self.waker
    }

    /// The cell that the operation holds is there.
    pub open spec fn wf<Message, Error>(&self, state: &State<Message, Error>) -> bool {
        self.ticket() matches Some(held) ==> state@.live(held)
    }

    /// Create new future for a carrier's `receive`.
    pub fn new() -> (receive: Self)
        ensures
            !receive.terminated(),
            receive.ticket() is None,
    {
        Receive { terminated: false, waker: None }
    }

    /// Tells whether the operation has given its result.
    pub fn is_terminated(&self) -> (terminated: bool)
        ensures
            terminated == self.terminated(),
    {
        self.terminated
    }

    /// Tells whether the operation holds a cell, and so will be woken.
    pub fn is_parked(&self) -> (parked: bool)
        ensures
            parked == (self.ticket() is Some),
    {
        self.waker.is_some()
    }

    /// Polls the operation.
    ///
    /// The oldest queued result is taken, if there is one, and the
    /// operation's cell goes away. On an empty queue a closed carrier gives
    /// `Closed`. Else the operation parks and is pending: `waker` is the
    /// handle that wakes it. An operation that has given its result stays
    /// pending for ever and changes nothing.
    pub fn poll<Message, Error>(
        &mut self,
        state: &mut State<Message, Error>,
        waker: &Waker,
    ) -> (polled: Polled<Result<Message, TransportError<Error>>>)
        requires
            old(state).wf(),
            old(self).wf(old(state)),
        ensures
            final(state).wf(),
            final(self).wf(final(state)),
            old(self).terminated() ==> polled is Pending && *final(self) == *old(self) && final(state)@ == old(state)@,
            !old(self).terminated() ==> {
                &&& final(state)@ == old(state)@.poll(old(self).ticket())
                &&& final(self).ticket() == old(state)@.ticket_after_poll(old(self).ticket())
                &&& match old(state)@.receivable() {
                    Some(result) => polled == Polled::Ready(result) && final(self).terminated(),
                    None => polled is Pending && !final(self).terminated(),
                }
            },
    {
        if self.terminated {
            return Polled::Pending;
        }
        proof {
            assert(state.cells@.len() == state.cells.len());
            lemma_poll_wf(state@, self.waker);
            lemma_live_count(state@.cells);
        }
        let ghost before = state@;
        match state.queue.pop_front() {
            Some(item) => {
                self.terminated = true;
                assert(state@.queue =~= before.queue.drop_first());
                match self.waker.take() {
                    Some(ticket) => {
                        state.cells.set(ticket, None);
                        proof {
                            assert(state@.cells =~= before.cells.update(ticket as int, None));
                            lemma_live_count_update(before.cells, ticket as int, None);
                            lemma_live_count(state@.cells);
                        }
                        state.live = state.live - 1;
                        if state.live == 0 {
                            state.cells.clear();
                            state.wakers.clear();
                            assert(state@.cells =~= Seq::empty());
                        }
                    },
                    None => {
                        proof {
                            assert(state@.cells =~= before.cells);
                            if before.idle() {
                                assert(state@.cells =~= Seq::empty());
                                assert(state@.registry =~= Seq::empty());
                            }
                        }
                    },
                }
                Polled::Ready(
                    match item {
                        Ok(message) => Ok(message),
                        Err(error) => Err(TransportError::Other(error)),
                    },
                )
            },
            None => {
                if state.closed {
                    self.terminated = true;
                    assert(state@.cells =~= before.cells);
                    Polled::Ready(Err(TransportError::Closed))
                } else {
                    match self.waker {
                        Some(ticket) => {
                            let mut woken = false;
                            match &mut state.cells[ticket] {
                                Some(cell) => {
                                    cell.update(waker);
                                    woken = cell.woken;
                                    cell.woken = false;
                                },
                                None => {},
                            }
                            if woken {
                                state.wakers.push_back(ticket);
                            }
                            proof {
                                assert(state@.cells =~= before.cells.update(
                                    ticket as int,
                                    Some(false),
                                ));
                                lemma_live_count_update(before.cells, ticket as int, Some(false));
                            }
                        },
                        None => {
                            let ticket = state.cells.len();
                            state.cells.push(Some(ReceiveWaker::new(clone_waker(waker))));
                            state.wakers.push_back(ticket);
                            self.waker = Some(ticket);
                            proof {
                                assert(state@.cells =~= before.cells.push(Some(false)));
                                lemma_live_count_push(before.cells, Some(false));
                                assert(state.cells@.len() == state.cells.len());
                            }
                            state.live = state.live + 1;
                        },
                    }
                    Polled::Pending
                }
            },
        }
    }

    /// Ends the operation, as dropping its future does.
    ///
    /// The operation's cell goes away. Where the operation had been woken and
    /// did not poll since, the wake-up is handed on to the next waiter, whose
    /// ticket is the result: what was queued for this operation is not left
    /// without a receiver.
    pub fn release<Message, Error>(&mut self, state: &mut State<Message, Error>) -> (woken: Option<
        usize,
    >)
        requires
            old(state).wf(),
            old(self).wf(old(state)),
        ensures
            final(state).wf(),
            final(self).ticket() is None,
            final(self).terminated() == old(self).terminated(),
            match old(self).ticket() {
                Some(held) => final(state)@ == old(state)@.release(held) && woken == old(state)@.heir(held),
                None => final(state)@ == old(state)@ && woken is None,
            },
    {
        let ghost before = state@;
        match self.waker.take() {
            Some(ticket) => {
                proof {
                    lemma_release_wf(before, ticket);
                }
                let was_woken = match &state.cells[ticket] {
                    Some(cell) => cell.woken,
                    None => false,
                };
                state.cells.set(ticket, None);
                proof {
                    assert(state@.cells =~= before.cells.update(ticket as int, None));
                    lemma_live_count_update(before.cells, ticket as int, None);
                    lemma_live_count(state@.cells);
                    assert forall|other: usize| #[trigger]
                        state@.parked(other) implies state@.registry.contains(other) by {
                        assert(before.parked(other));
                    }
                }
                state.live = state.live - 1;
                let ghost without = state@;
                assert(was_woken == before.woken(ticket));
                if state.live == 0 {
                    proof {
                        lemma_first_live(state@.registry, state@.cells);
                        assert(state@.idle());
                        match first_live(state@.registry, state@.cells) {
                            Some(place) => {
                                assert(state@.cells[state@.registry[place] as int] is None);
                            },
                            None => {},
                        }
                    }
                    state.cells.clear();
                    state.wakers.clear();
                    proof {
                        assert(state@.cells =~= Seq::empty());
                        assert(state@.registry =~= Seq::empty());
                        assert(without.wake_next().settled() == state@);
                        assert(without.settled() == state@);
                    }
                    None
                } else if was_woken {
                    assert(!without.idle());
                    let woken = state.wake_next();
                    proof {
                        lemma_wake_next_wf(without);
                        assert(state.cells@.len() == state.cells.len());
                        let at = choose|i: int|
                            0 <= i < without.cells.len() && !((#[trigger] without.cells[i]) is None);
                        assert(without.live(at as usize));
                        assert(state@.live(at as usize));
                        assert(state@.cells[at] is Some);
                    }
                    woken
                } else {
                    assert(!without.idle());
                    None
                }
            },
            None => None,
        }
    }
}

/// Future returned by a carrier's `close`.
pub struct Close {
    terminated: bool,
}

impl Close {
    /// Whether the operation has closed the carrier.
    pub closed spec fn terminated(&self) -> bool {
        self.terminated
    }

    /// Create new future for a carrier's `close`.
    pub fn new() -> (close: Self)
        ensures
            !close.terminated(),
    {
        Close { terminated: false }
    }

    /// Tells whether the operation has closed the carrier.
    pub fn is_terminated(&self) -> (terminated: bool)
        ensures
            terminated == self.terminated(),
    {
        self.terminated
    }

    /// Polls the operation: the first poll closes the carrier's state and
    /// wakes one waiter, later polls change nothing. Closing never waits and
    /// never fails.
    pub fn poll<Message, Error>(&mut self, state: &mut State<Message, Error>) -> (polled: Polled<()>)
        requires
            old(state).wf(),
        ensures
            final(state).wf(),
            polled == Polled::Ready(()),
            final(self).terminated(),
            final(state)@ == if old(self).terminated() {
                old(state)@
            } else {
                old(state)@.close()
            },
    {
        if !self.terminated {
            state.close();
            self.terminated = true;
        }
        Polled::Ready(())
    }
}

/// What a carrier does to send one message at once.
pub trait Sender<Transport, Message, Error> {
    /// What the carrier asks of itself before and after each sending.
    spec fn ready(transport: &Transport) -> bool;

    /// What a sending does: how the carrier after it and the answer relate
    /// to the carrier before it and to the message.
    spec fn sends(
        before: &Transport,
        message: Message,
        after: &Transport,
        answer: Result<(), TransportError<Error>>,
    ) -> bool;

    /// Hands the message to the carrier.
    fn send(transport: &mut Transport, message: Message) -> (sent: Result<
        (),
        TransportError<Error>,
    >)
        requires
            Self::ready(old(transport)),
        ensures
            Self::ready(final(transport)),
            Self::sends(old(transport), message, final(transport), sent),
    ;
}

/// Future returned by a carrier's `send`.
pub struct Send<Message> {
    message: Option<Message>,
}

impl<Message> Send<Message> {
    /// The message that is still to be sent.
    pub closed spec fn message(&self) -> Option<Message> {
        self.message
    }

    /// Create new future for a carrier's `send`.
    pub fn new(message: Message) -> (send: Self)
        ensures
            send.message() == Some(message),
    {
        Send { message: Some(message) }
    }

    /// Tells whether the message was handed to the carrier.
    pub fn is_terminated(&self) -> (terminated: bool)
        ensures
            terminated == (self.message() is None),
    {
        self.message.is_none()
    }

    /// Polls the operation: the first poll hands the message to the carrier
    /// and gives what the carrier answered; later polls are pending and
    /// change nothing.
    pub fn poll<Transport, Error, S: Sender<Transport, Message, Error>>(
        &mut self,
        transport: &mut Transport,
    ) -> (polled: Polled<Result<(), TransportError<Error>>>)
        requires
            S::ready(old(transport)),
        ensures
            S::ready(final(transport)),
            final(self).message() is None,
            match old(self).message() {
                Some(message) => polled matches Polled::Ready(answer) && S::sends(
                    old(transport),
                    message,
                    final(transport),
                    answer,
                ),
                None => polled is Pending && *final(transport) == *old(transport),
            },
    {
        match self.message.take() {
            Some(message) => Polled::Ready(S::send(transport, message)),
            None => Polled::Pending,
        }
    }
}

/// What a carrier does to close at once.
pub trait Closer<Transport> {
    /// What the carrier asks of itself before and after closing.
    spec fn ready(transport: &Transport) -> bool;

    /// What closing does: how the carrier after it relates to the carrier
    /// before it.
    spec fn closes(before: &Transport, after: &Transport) -> bool;

    /// Closes the carrier.
    fn close(transport: &mut Transport)
        requires
            Self::ready(old(transport)),
        ensures
            Self::ready(final(transport)),
            Self::closes(old(transport), final(transport)),
    ;
}

impl Close {
    /// Polls the operation on a carrier that closes as `C` says: the first
    /// poll closes the carrier, later polls change nothing. Closing never
    /// waits and never fails.
    pub fn poll_with<Transport, C: Closer<Transport>>(&mut self, transport: &mut Transport) -> (polled:
        Polled<()>)
        requires
            C::ready(old(transport)),
        ensures
            C::ready(final(transport)),
            polled == Polled::Ready(()),
            final(self).terminated(),
            if old(self).terminated() {
                *final(transport) == *old(transport)
            } else {
                C::closes(old(transport), final(transport))
            },
    {
        if !self.terminated {
            C::close(transport);
            self.terminated = true;
        }
        Polled::Ready(())
    }
}

/// Waking reaches a waiter wherever there is one: while any receiver waits
/// to be woken, the next to be woken is such a receiver, and it is marked as
/// woken. So an arrival, or the close, is never without a receiver that
/// learns of it.
pub proof fn lemma_wake_reaches_a_waiter<Message, Error>(model: Model<Message, Error>, waiting: usize)
    requires
        model.wf(),
        model.parked(waiting),
    ensures
        model.next_waiter() matches Some(chosen) && model.parked(chosen) && model.wake_next().woken(
            chosen,
        ) && model.close().woken(chosen),
{
    lemma_first_live(model.registry, model.cells);
    match first_live(model.registry, model.cells) {
        Some(place) => {
            assert(!model.woken(model.registry[place]));
        },
        None => {
            let at = choose|i: int| 0 <= i < model.registry.len() && model.registry[i] == waiting;
            assert(is_live(model.cells, model.registry[at]));
        },
    }
}

/// The closed flag never resets: whatever is done to a closed state, it stays
/// closed.
pub proof fn lemma_closed_is_final<Message, Error>(
    model: Model<Message, Error>,
    message: Message,
    error: Error,
    ticket: Option<usize>,
    held: usize,
)
    requires
        model.closed,
    ensures
        model.message(message).closed,
        model.error(error).closed,
        model.wake_next().closed,
        model.close().closed,
        model.poll(ticket).closed,
        model.release(held).closed,
{
}

/// Once a receive gives `Closed`, every later receive gives `Closed`: the
/// queue is empty and the state closed, and a poll changes neither.
pub proof fn lemma_closed_stays_closed<Message, Error>(
    model: Model<Message, Error>,
    ticket: Option<usize>,
)
    requires
        model.receivable() == Some(Err::<Message, TransportError<Error>>(TransportError::Closed)),
    ensures
        model.poll(ticket) == model,
        model.poll(ticket).receivable() == Some(
            Err::<Message, TransportError<Error>>(TransportError::Closed),
        ),
{
    if model.queue.len() > 0 {
        match model.queue.first() {
            Ok(_) => {},
            Err(_) => {},
        }
    }
}

} // verus!
