//! Wrapper transport turning a numbered, but not necessarily ordered,
//! transport into an ordered one by discarding old messages: polling it gives
//! the latest message that was received and drops those before it.
//!
//! It serves where stale messages are of no use. The messages that it gives
//! have strictly increasing numbers; it never gives all of them.
//!
//! Unless told otherwise the transport compares numbers in their natural
//! order: a number that has wrapped around to zero then counts as older than
//! the numbers before the wrap, and its message is dropped. Where numbers are
//! expected to wrap around, the transport can be made to compare them as
//! serial numbers instead: a number is then newer than another if it lies
//! ahead of it by less than half of the number range.

use vstd::prelude::*;
use core::marker::PhantomData;
use std::task::Waker;
use crate::error::Error;
use crate::numbered::{serially_newer, Counter, Number, Unwrap};
use crate::poll::Polled;
use crate::transport::{Order, Transport};
use crate::waker::wake_by_ref;

verus! {

/// How the numbers of messages are compared.
#[derive(Debug, Clone, Copy, PartialEq, Eq, Structural)]
pub enum Freshness {
    /// In the natural order of numbers. Numbers that have wrapped around
    /// count as old.
    Natural,
    /// As serial numbers: a number is newer than another if it lies ahead of
    /// it by less than half of the number range.
    Serial,
}

/// Whether a message with this number is newer than the newest that was kept
/// before it, `last`, under the given comparison. The first message is newer
/// than nothing.
pub open spec fn fresher<N: Counter>(freshness: Freshness, number: N, last: Option<N>) -> bool {
    match last {
        Some(kept) => match freshness {
            Freshness::Natural => number.value() > kept.value(),
            Freshness::Serial => serially_newer(number.value(), kept.value(), N::modulus()),
        },
        None => true,
    }
}

/// The newest number does not go back.
pub open spec fn advances<N: Counter>(before: Option<N>, after: Option<N>) -> bool {
    before matches Some(old) ==> after matches Some(new) && new.value() >= old.value()
}

/// The number of the message that a poll gave, if it gave one.
pub open spec fn given<I: Number, E>(polled: Polled<Option<Result<I, E>>>) -> Option<I::Output> {
    match polled {
        Polled::Ready(Some(Ok(item))) => Some(item.number_of()),
        _ => None,
    }
}

/// One poll, as far as numbers go, where `before` and `after` are the newest
/// number kept before and after it and `number` is that of the message that
/// it gave, if it gave one.
///
/// A number once kept is never forgotten, and a message that is given has the
/// newest number. In the natural order, moreover, the newest number does not
/// go back, and a message that is given is newer than all that were kept
/// before the poll.
pub open spec fn polled_once<N: Counter>(
    freshness: Freshness,
    before: Option<N>,
    after: Option<N>,
    number: Option<N>,
) -> bool {
    &&& before is Some ==> after is Some
    &&& number matches Some(new) ==> after == Some(new)
    &&& freshness is Natural ==> advances(before, after)
    &&& freshness is Natural ==> (number matches Some(new) ==> fresher(freshness, new, before))
}

/// A run of polls that compare in the natural order: `lasts` holds the newest
/// number before the first poll and after each poll, `numbers` what each poll
/// gave.
pub open spec fn polled_run<N: Counter>(lasts: Seq<Option<N>>, numbers: Seq<Option<N>>) -> bool {
    &&& lasts.len() == numbers.len() + 1
    &&& forall|i: int|
        0 <= i < numbers.len() ==> polled_once(
            Freshness::Natural,
            lasts[i],
            lasts[i + 1],
            #[trigger] numbers[i],
        )
}

/// Once a message was given, the newest number stays at or above its number.
pub proof fn lemma_last_stays_above<N: Counter>(
    lasts: Seq<Option<N>>,
    numbers: Seq<Option<N>>,
    at: int,
    later: int,
)
    requires
        polled_run(lasts, numbers),
        0 <= at < later <= numbers.len(),
        numbers[at] is Some,
    ensures
        lasts[later] matches Some(last) && last.value() >= numbers[at]->0.value(),
    decreases later - at,
{
    assert(polled_once(Freshness::Natural, lasts[at], lasts[at + 1], numbers[at]));
    if later > at + 1 {
        lemma_last_stays_above(lasts, numbers, at, later - 1);
        assert(polled_once(Freshness::Natural, lasts[later - 1], lasts[later], numbers[later - 1]));
    }
}

/// In the natural order the numbers of the messages given are strictly
/// increasing: of any two messages that a run of polls gives, the later has
/// the greater number.
pub proof fn lemma_given_numbers_increase<N: Counter>(
    lasts: Seq<Option<N>>,
    numbers: Seq<Option<N>>,
    earlier: int,
    later: int,
)
    requires
        polled_run(lasts, numbers),
        0 <= earlier < later < numbers.len(),
        numbers[earlier] is Some,
        numbers[later] is Some,
    ensures
        numbers[later]->0.value() > numbers[earlier]->0.value(),
{
    lemma_last_stays_above(lasts, numbers, earlier, later);
    assert(polled_once(Freshness::Natural, lasts[later], lasts[later + 1], numbers[later]));
}

/// What becomes of one result of the wrapped transport while the decorator
/// drains it.
pub enum Drain<Incoming, E> {
    /// The wrapped transport is to be polled again; the message, if any, is
    /// the latest so far.
    Again(Option<Incoming>),
    /// The drain is over, with this answer.
    Done(Polled<Option<Result<Incoming, E>>>),
}

/// What a drain ends with when the wrapped transport has nothing more for
/// now: the latest message, or pending where there is none.
pub open spec fn gives<I, E>(latest: Option<I>) -> Polled<Option<Result<I, E>>> {
    match latest {
        Some(item) => Polled::Ready(Some(Ok(item))),
        None => Polled::Pending,
    }
}

/// What becomes of one result of the wrapped transport during a drain, where
/// `last` is the newest number kept so far and `latest` the latest message.
///
/// A message that is newer than `last` becomes the latest; a stale one is
/// dropped; either way the drain goes on. An error and the end of the stream
/// end the drain and are handed on. Where the wrapped transport is pending,
/// the drain ends with what [`gives`] says.
pub open spec fn stepped<N: Counter, I: Number<Output = N>, E>(
    freshness: Freshness,
    last: Option<N>,
    latest: Option<I>,
    polled: Polled<Option<Result<I, E>>>,
) -> Drain<I, E> {
    match polled {
        Polled::Ready(Some(Ok(item))) => if fresher(freshness, item.number_of(), last) {
            Drain::Again(Some(item))
        } else {
            Drain::Again(latest)
        },
        Polled::Ready(Some(Err(error))) => Drain::Done(Polled::Ready(Some(Err(error)))),
        Polled::Ready(None) => Drain::Done(Polled::Ready(None)),
        Polled::Pending => Drain::Done(gives(latest)),
    }
}

/// The newest number kept after one result of the wrapped transport: that of
/// a message that was newer than `last`, else `last`.
pub open spec fn kept_after<N: Counter, I: Number<Output = N>, E>(
    freshness: Freshness,
    last: Option<N>,
    polled: Polled<Option<Result<I, E>>>,
) -> Option<N> {
    match polled {
        Polled::Ready(Some(Ok(item))) => if fresher(freshness, item.number_of(), last) {
            Some(item.number_of())
        } else {
            last
        },
        _ => last,
    }
}

/// A drain of the wrapped transport `inner`, where `last` is the newest
/// number kept so far, `latest` the latest message, and `budget` the number
/// of results that the drain may still take.
///
/// With no budget left the drain gives way with what [`gives`] says and
/// leaves all as it is. Else the wrapped transport is polled once, and its
/// result goes through [`stepped`]: either that ends the drain, or the drain
/// goes on from where the wrapped transport then stands, with one result
/// less to take. `inner_after` and `last_after` are what the drain leaves,
/// `polled` is what it gives.
pub open spec fn drains<T: Transport<I, O, E>, E, N: Counter, I: Number<Output = N>, O>(
    freshness: Freshness,
    inner: T,
    last: Option<N>,
    latest: Option<I>,
    budget: nat,
    inner_after: T,
    last_after: Option<N>,
    polled: Polled<Option<Result<I, E>>>,
) -> bool
    decreases budget,
{
    if budget == 0 {
        inner_after == inner && last_after == last && polled == gives::<I, E>(latest)
    } else {
        exists|mid: T, next: Polled<Option<Result<I, E>>>| #[trigger]
            T::polls(&inner, &mid, next) && match stepped(freshness, last, latest, next) {
                Drain::Again(kept) => drains::<T, E, N, I, O>(
                    freshness,
                    mid,
                    kept_after(freshness, last, next),
                    kept,
                    (budget - 1) as nat,
                    inner_after,
                    last_after,
                    polled,
                ),
                Drain::Done(answer) => inner_after == mid && last_after == kept_after(
                    freshness,
                    last,
                    next,
                ) && polled == answer,
            }
    }
}

/// Wrapper transport that gives only the latest message received.
pub struct LatestOnly<T, E, N, Incoming, Outgoing> {
    inner: T,
    last_number: Option<N>,
    freshness: Freshness,
    _error: PhantomData<E>,
    _incoming: PhantomData<Incoming>,
    _outgoing: PhantomData<Outgoing>,
}

impl<T, E, N: Counter, Incoming: Number<Output = N>, Outgoing> LatestOnly<
    T,
    E,
    N,
    Incoming,
    Outgoing,
> where T: Transport<Incoming, Outgoing, E> {
    /// The number of the newest message that was kept so far.
    pub closed spec fn last(&self) -> Option<N> {
        self.last_number
    }

    /// The wrapped transport.
    pub closed spec fn inner(&self) -> T {
        self.inner
    }

    /// How the transport compares numbers.
    pub closed spec fn freshness(&self) -> Freshness {
        self.freshness
    }

    /// Wrap a provided numbered transport turning it into ordered transport
    /// returning latest message when polling it for the next received
    /// message. Numbers are compared in their natural order.
    pub fn new(transport: T) -> (latest: Self)
        ensures
            latest.last() is None,
            latest.inner() == transport,
            latest.freshness() == Freshness::Natural,
    {
        LatestOnly::with_freshness(transport, Freshness::Natural)
    }

    /// Wrap a provided numbered transport as [`LatestOnly::new`] does, with
    /// the given comparison of numbers.
    pub fn with_freshness(transport: T, freshness: Freshness) -> (latest: Self)
        ensures
            latest.last() is None,
            latest.inner() == transport,
            latest.freshness() == freshness,
    {
        LatestOnly {
            inner: transport,
            last_number: None,
            freshness,
            _error: PhantomData,
            _incoming: PhantomData,
            _outgoing: PhantomData,
        }
    }

    /// How the transport compares numbers.
    pub fn compares(&self) -> (freshness: Freshness)
        ensures
            freshness == self.freshness(),
    {
        self.freshness
    }

    /// Return an unwrapping transport: one that gives the messages without
    /// their numbers.
    pub fn into_unwrapping<I>(self) -> (unwrapping: LatestOnlyUnwrapping<
        T,
        E,
        N,
        Incoming,
        I,
        Outgoing,
    >) where Incoming: Unwrap<Output = I>
        ensures
            unwrapping.latest() == self,
    {
        LatestOnlyUnwrapping { inner: self, _unwrapped: PhantomData }
    }

    /// The number of the newest message that was kept so far.
    pub fn last_number(&self) -> (last: Option<N>)
        ensures
            last == self.last(),
    {
        self.last_number
    }

    /// The wrapped transport, to be driven. What the decorator remembers
    /// stays as it is.
    pub fn get_mut(&mut self) -> (inner: &mut T)
        ensures
            *inner == old(self).inner(),
            final(self).inner() == *final(inner),
            final(self).last() == old(self).last(),
            final(self).freshness() == old(self).freshness(),
    {
        &mut self.inner
    }

    /// Takes in one result of the wrapped transport during a drain, of which
    /// `latest` is the latest message so far.
    ///
    /// A message that is newer than all before it becomes the latest, and its
    /// number is remembered; a stale one is dropped. Either way the drain
    /// goes on. An error ends the drain and is handed on as it is. The end of
    /// the stream ends the drain and is handed on. Where the wrapped
    /// transport is pending, the drain ends with the latest message, or
    /// pending where there is none.
    pub fn step(
        &mut self,
        latest: Option<Incoming>,
        polled: Polled<Option<Result<Incoming, E>>>,
    ) -> (drain: Drain<Incoming, E>)
        ensures
            final(self).inner() == old(self).inner(),
            final(self).freshness() == old(self).freshness(),
            drain == stepped(old(self).freshness(), old(self).last(), latest, polled),
            final(self).last() == kept_after(old(self).freshness(), old(self).last(), polled),
    {
        match polled {
            Polled::Ready(Some(Ok(item))) => {
                let number = item.number();
                let newer = match self.last_number {
                    Some(last) => match self.freshness {
                        Freshness::Natural => number.newer_than(last),
                        Freshness::Serial => number.serially_newer_than(last),
                    },
                    None => true,
                };
                if newer {
                    self.last_number = Some(number);
                    Drain::Again(Some(item))
                } else {
                    Drain::Again(latest)
                }
            },
            Polled::Ready(Some(Err(error))) => Drain::Done(Polled::Ready(Some(Err(error)))),
            Polled::Ready(None) => Drain::Done(Polled::Ready(None)),
            Polled::Pending => Drain::Done(
                match latest {
                    Some(item) => Polled::Ready(Some(Ok(item))),
                    None => Polled::Pending,
                },
            ),
        }
    }

    /// What a poll for the next message does: it drains the wrapped
    /// transport as [`drains`] says, from no latest message and with a budget
    /// of `usize::MAX` results, and compares as before.
    pub open spec fn polled(
        before: &Self,
        after: &Self,
        polled: Polled<Option<Result<Incoming, E>>>,
    ) -> bool {
        &&& after.freshness() == before.freshness()
        &&& drains::<T, E, N, Incoming, Outgoing>(
            before.freshness(),
            before.inner(),
            before.last(),
            None,
            usize::MAX as nat,
            after.inner(),
            after.last(),
            polled,
        )
    }

    /// What the sending side keeps of the receiving side: all of it.
    pub open spec fn kept(before: &Self, after: &Self) -> bool {
        after.last() == before.last() && after.freshness() == before.freshness()
    }

    /// Drains the wrapped transport and gives the latest message.
    ///
    /// The wrapped transport is polled until it is pending or at its end,
    /// each result going through [`LatestOnly::step`]. In the natural order a
    /// message that is given has a number above that of every message given
    /// before: the numbers given are strictly increasing. A drain gives way
    /// after `usize::MAX` results in a row, with the latest message so far.
    pub fn poll_next(&mut self, waker: &Waker) -> (polled: Polled<Option<Result<Incoming, E>>>)
        ensures
            Self::polled(old(self), final(self), polled),
            polled_once(old(self).freshness(), old(self).last(), final(self).last(), given(polled)),
    {
        let mut latest: Option<Incoming> = None;
        let mut budget: usize = usize::MAX;
        let ghost freshness = self.freshness();
        let ghost start = self.inner();
        let ghost first = self.last();
        while budget > 0
            invariant
                freshness == old(self).freshness(),
                start == old(self).inner(),
                first == old(self).last(),
                self.freshness() == freshness,
                first is Some ==> self.last() is Some,
                latest matches Some(item) ==> self.last() == Some(item.number_of()),
                freshness is Natural ==> advances(first, self.last()),
                freshness is Natural ==> (latest matches Some(item) ==> fresher(
                    Freshness::Natural,
                    item.number_of(),
                    first,
                )),
                forall|inner_after: T, last_after: Option<N>, answer: Polled<Option<Result<Incoming, E>>>|
                    #[trigger] drains::<T, E, N, Incoming, Outgoing>(
                        freshness,
                        self.inner(),
                        self.last(),
                        latest,
                        budget as nat,
                        inner_after,
                        last_after,
                        answer,
                    ) ==> drains::<T, E, N, Incoming, Outgoing>(
                        freshness,
                        start,
                        first,
                        None,
                        usize::MAX as nat,
                        inner_after,
                        last_after,
                        answer,
                    ),
            decreases budget,
        {
            let ghost inner_before = self.inner();
            let ghost last_before = self.last();
            let ghost latest_before = latest;
            let ghost budget_before = budget as nat;
            budget = budget - 1;
            let next = self.inner.poll_next(waker);
            assert(T::polls(&inner_before, &self.inner(), next));
            let ghost inner_mid = self.inner();
            match self.step(latest, next) {
                Drain::Again(kept) => {
                    latest = kept;
                    assert forall|
                        inner_after: T,
                        last_after: Option<N>,
                        answer: Polled<Option<Result<Incoming, E>>>,
                    | #[trigger]
                        drains::<T, E, N, Incoming, Outgoing>(
                            freshness,
                            self.inner(),
                            self.last(),
                            latest,
                            budget as nat,
                            inner_after,
                            last_after,
                            answer,
                        ) implies drains::<T, E, N, Incoming, Outgoing>(
                        freshness,
                        start,
                        first,
                        None,
                        usize::MAX as nat,
                        inner_after,
                        last_after,
                        answer,
                    ) by {
                        assert(T::polls(&inner_before, &inner_mid, next));
                        assert(drains::<T, E, N, Incoming, Outgoing>(
                            freshness,
                            inner_before,
                            last_before,
                            latest_before,
                            budget_before,
                            inner_after,
                            last_after,
                            answer,
                        ));
                    }
                },
                Drain::Done(answer) => {
                    proof {
                        assert(T::polls(&inner_before, &inner_mid, next));
                        assert(drains::<T, E, N, Incoming, Outgoing>(
                            freshness,
                            inner_before,
                            last_before,
                            latest_before,
                            budget_before,
                            self.inner(),
                            self.last(),
                            answer,
                        ));
                    }
                    return answer;
                },
            }
        }
        proof {
            assert(drains::<T, E, N, Incoming, Outgoing>(
                freshness,
                self.inner(),
                self.last(),
                latest,
                0,
                self.inner(),
                self.last(),
                gives::<Incoming, E>(latest),
            ));
        }
        match latest {
            Some(item) => Polled::Ready(Some(Ok(item))),
            None => {
                wake_by_ref(waker);
                Polled::Pending
            },
        }
    }

    /// Asks the wrapped transport whether it can take a message: the answer
    /// is the wrapped transport's.
    pub fn poll_ready(&mut self, waker: &Waker) -> (polled: Polled<Result<(), Error<E>>>)
        ensures
            T::readies(&old(self).inner(), &final(self).inner(), polled),
            final(self).last() == old(self).last(),
            final(self).freshness() == old(self).freshness(),
    {
        self.inner.poll_ready(waker)
    }

    /// Hands a message to the wrapped transport: the answer is the wrapped
    /// transport's.
    pub fn start_send(&mut self, item: Outgoing) -> (result: Result<(), Error<E>>)
        ensures
            T::sends(&old(self).inner(), item, &final(self).inner(), result),
            final(self).last() == old(self).last(),
            final(self).freshness() == old(self).freshness(),
    {
        self.inner.start_send(item)
    }

    /// Flushes the wrapped transport: the answer is the wrapped transport's.
    pub fn poll_flush(&mut self, waker: &Waker) -> (polled: Polled<Result<(), Error<E>>>)
        ensures
            T::flushes(&old(self).inner(), &final(self).inner(), polled),
            final(self).last() == old(self).last(),
            final(self).freshness() == old(self).freshness(),
    {
        self.inner.poll_flush(waker)
    }

    /// Closes the wrapped transport: the answer is the wrapped transport's.
    pub fn poll_close(&mut self, waker: &Waker) -> (polled: Polled<Result<(), Error<E>>>)
        ensures
            T::closes(&old(self).inner(), &final(self).inner(), polled),
            final(self).last() == old(self).last(),
            final(self).freshness() == old(self).freshness(),
    {
        self.inner.poll_close(waker)
    }

    /// Tells whether the wrapped transport's stream has ended.
    pub fn is_terminated(&self) -> (terminated: bool)
        ensures
            self.inner().tells(terminated),
    {
        self.inner.is_terminated()
    }
}

impl<T, E, N: Counter, Incoming: Number<Output = N>, Outgoing> Transport<
    Incoming,
    Outgoing,
    E,
> for LatestOnly<T, E, N, Incoming, Outgoing> where T: Transport<Incoming, Outgoing, E> {
    open spec fn readies(before: &Self, after: &Self, polled: Polled<Result<(), Error<E>>>) -> bool {
        T::readies(&before.inner(), &after.inner(), polled) && LatestOnly::kept(before, after)
    }

    open spec fn sends(
        before: &Self,
        item: Outgoing,
        after: &Self,
        answer: Result<(), Error<E>>,
    ) -> bool {
        T::sends(&before.inner(), item, &after.inner(), answer) && LatestOnly::kept(before, after)
    }

    open spec fn flushes(before: &Self, after: &Self, polled: Polled<Result<(), Error<E>>>) -> bool {
        T::flushes(&before.inner(), &after.inner(), polled) && LatestOnly::kept(before, after)
    }

    open spec fn closes(before: &Self, after: &Self, polled: Polled<Result<(), Error<E>>>) -> bool {
        T::closes(&before.inner(), &after.inner(), polled) && LatestOnly::kept(before, after)
    }

    open spec fn polls(
        before: &Self,
        after: &Self,
        polled: Polled<Option<Result<Incoming, E>>>,
    ) -> bool {
        LatestOnly::polled(before, after, polled)
    }

    open spec fn tells(&self, terminated: bool) -> bool {
        self.inner().tells(terminated)
    }

    fn poll_ready(&mut self, waker: &Waker) -> Polled<Result<(), Error<E>>> {
        LatestOnly::poll_ready(self, waker)
    }

    fn start_send(&mut self, item: Outgoing) -> Result<(), Error<E>> {
        LatestOnly::start_send(self, item)
    }

    fn poll_flush(&mut self, waker: &Waker) -> Polled<Result<(), Error<E>>> {
        LatestOnly::poll_flush(self, waker)
    }

    fn poll_close(&mut self, waker: &Waker) -> Polled<Result<(), Error<E>>> {
        LatestOnly::poll_close(self, waker)
    }

    fn poll_next(&mut self, waker: &Waker) -> Polled<Option<Result<Incoming, E>>> {
        LatestOnly::poll_next(self, waker)
    }

    fn is_terminated(&self) -> bool {
        LatestOnly::is_terminated(self)
    }
}

impl<T, E, N, Incoming, Outgoing> Order for LatestOnly<T, E, N, Incoming, Outgoing> {

}

/// What the unwrapping transport makes of what the numbered one gives: the
/// message without its number.
pub open spec fn unwrapped<I: Unwrap, E>(polled: Polled<Option<Result<I, E>>>) -> Polled<
    Option<Result<I::Output, E>>,
> {
    match polled {
        Polled::Ready(Some(Ok(item))) => Polled::Ready(Some(Ok(item.unwrapped()))),
        Polled::Ready(Some(Err(error))) => Polled::Ready(Some(Err(error))),
        Polled::Ready(None) => Polled::Ready(None),
        Polled::Pending => Polled::Pending,
    }
}

/// Transport returned by [`LatestOnly::into_unwrapping`] method.
pub struct LatestOnlyUnwrapping<T, E, N, I, Incoming, Outgoing> {
    inner: LatestOnly<T, E, N, I, Outgoing>,
    _unwrapped: PhantomData<Incoming>,
}

impl<T, E, N: Counter, I: Number<Output = N> + Unwrap<Output = Incoming>, Incoming, Outgoing> LatestOnlyUnwrapping<
    T,
    E,
    N,
    I,
    Incoming,
    Outgoing,
> where T: Transport<I, Outgoing, E> {
    /// The transport whose messages are unwrapped.
    pub closed spec fn latest(&self) -> LatestOnly<T, E, N, I, Outgoing> {
        self.inner
    }

    /// The transport whose messages are unwrapped, to be driven.
    pub fn get_mut(&mut self) -> (inner: &mut LatestOnly<T, E, N, I, Outgoing>)
        ensures
            *inner == old(self).latest(),
            final(self).latest() == *final(inner),
    {
        &mut self.inner
    }

    /// Takes in what the numbered transport gave and unwraps the message in
    /// it.
    pub fn unwrap(polled: Polled<Option<Result<I, E>>>) -> (result: Polled<
        Option<Result<Incoming, E>>,
    >)
        ensures
            result == unwrapped(polled),
    {
        match polled {
            Polled::Ready(Some(Ok(item))) => Polled::Ready(Some(Ok(item.unwrap()))),
            Polled::Ready(Some(Err(error))) => Polled::Ready(Some(Err(error))),
            Polled::Ready(None) => Polled::Ready(None),
            Polled::Pending => Polled::Pending,
        }
    }

    /// What a poll for the next message does: the numbered transport is
    /// polled as [`LatestOnly::polled`] says, and what it gives is unwrapped.
    pub open spec fn polled(
        before: &Self,
        after: &Self,
        polled: Polled<Option<Result<Incoming, E>>>,
    ) -> bool {
        exists|numbered: Polled<Option<Result<I, E>>>|
            {
                &&& #[trigger] LatestOnly::polled(&before.latest(), &after.latest(), numbered)
                &&& polled == unwrapped(numbered)
                &&& polled_once(
                    before.latest().freshness(),
                    before.latest().last(),
                    after.latest().last(),
                    given(numbered),
                )
            }
    }

    /// Drains the wrapped transport and gives the latest message, without
    /// its number.
    pub fn poll_next(&mut self, waker: &Waker) -> (polled: Polled<Option<Result<Incoming, E>>>)
        ensures
            final(self).latest().freshness() == old(self).latest().freshness(),
            Self::polled(old(self), final(self), polled),
    {
        let numbered = self.inner.poll_next(waker);
        assert(LatestOnly::polled(&old(self).latest(), &self.latest(), numbered));
        Self::unwrap(numbered)
    }

    /// Asks the wrapped transport whether it can take a message: the answer
    /// is the wrapped transport's.
    pub fn poll_ready(&mut self, waker: &Waker) -> (polled: Polled<Result<(), Error<E>>>)
        ensures
            T::readies(&old(self).latest().inner(), &final(self).latest().inner(), polled),
            LatestOnly::kept(&old(self).latest(), &final(self).latest()),
    {
        self.inner.poll_ready(waker)
    }

    /// Hands a message to the wrapped transport: the answer is the wrapped
    /// transport's.
    pub fn start_send(&mut self, item: Outgoing) -> (result: Result<(), Error<E>>)
        ensures
            T::sends(&old(self).latest().inner(), item, &final(self).latest().inner(), result),
            LatestOnly::kept(&old(self).latest(), &final(self).latest()),
    {
        self.inner.start_send(item)
    }

    /// Flushes the wrapped transport: the answer is the wrapped transport's.
    pub fn poll_flush(&mut self, waker: &Waker) -> (polled: Polled<Result<(), Error<E>>>)
        ensures
            T::flushes(&old(self).latest().inner(), &final(self).latest().inner(), polled),
            LatestOnly::kept(&old(self).latest(), &final(self).latest()),
    {
        self.inner.poll_flush(waker)
    }

    /// Closes the wrapped transport: the answer is the wrapped transport's.
    pub fn poll_close(&mut self, waker: &Waker) -> (polled: Polled<Result<(), Error<E>>>)
        ensures
            T::closes(&old(self).latest().inner(), &final(self).latest().inner(), polled),
            LatestOnly::kept(&old(self).latest(), &final(self).latest()),
    {
        self.inner.poll_close(waker)
    }

    /// Tells whether the wrapped transport's stream has ended.
    pub fn is_terminated(&self) -> (terminated: bool)
        ensures
            self.latest().inner().tells(terminated),
    {
        self.inner.is_terminated()
    }
}

impl<T, E, N: Counter, I: Number<Output = N> + Unwrap<Output = Incoming>, Incoming, Outgoing> Transport<
    Incoming,
    Outgoing,
    E,
> for LatestOnlyUnwrapping<T, E, N, I, Incoming, Outgoing> where T: Transport<I, Outgoing, E> {
    open spec fn readies(before: &Self, after: &Self, polled: Polled<Result<(), Error<E>>>) -> bool {
        &&& T::readies(&before.latest().inner(), &after.latest().inner(), polled)
        &&& LatestOnly::kept(&before.latest(), &after.latest())
    }

    open spec fn sends(
        before: &Self,
        item: Outgoing,
        after: &Self,
        answer: Result<(), Error<E>>,
    ) -> bool {
        &&& T::sends(&before.latest().inner(), item, &after.latest().inner(), answer)
        &&& LatestOnly::kept(&before.latest(), &after.latest())
    }

    open spec fn flushes(before: &Self, after: &Self, polled: Polled<Result<(), Error<E>>>) -> bool {
        &&& T::flushes(&before.latest().inner(), &after.latest().inner(), polled)
        &&& LatestOnly::kept(&before.latest(), &after.latest())
    }

    open spec fn closes(before: &Self, after: &Self, polled: Polled<Result<(), Error<E>>>) -> bool {
        &&& T::closes(&before.latest().inner(), &after.latest().inner(), polled)
        &&& LatestOnly::kept(&before.latest(), &after.latest())
    }

    open spec fn polls(
        before: &Self,
        after: &Self,
        polled: Polled<Option<Result<Incoming, E>>>,
    ) -> bool {
        &&& after.latest().freshness() == before.latest().freshness()
        &&& LatestOnlyUnwrapping::polled(before, after, polled)
    }

    open spec fn tells(&self, terminated: bool) -> bool {
        self.latest().inner().tells(terminated)
    }

    fn poll_ready(&mut self, waker: &Waker) -> Polled<Result<(), Error<E>>> {
        LatestOnlyUnwrapping::poll_ready(self, waker)
    }

    fn start_send(&mut self, item: Outgoing) -> Result<(), Error<E>> {
        LatestOnlyUnwrapping::start_send(self, item)
    }

    fn poll_flush(&mut self, waker: &Waker) -> Polled<Result<(), Error<E>>> {
        LatestOnlyUnwrapping::poll_flush(self, waker)
    }

    fn poll_close(&mut self, waker: &Waker) -> Polled<Result<(), Error<E>>> {
        LatestOnlyUnwrapping::poll_close(self, waker)
    }

    fn poll_next(&mut self, waker: &Waker) -> Polled<Option<Result<Incoming, E>>> {
        LatestOnlyUnwrapping::poll_next(self, waker)
    }

    fn is_terminated(&self) -> bool {
        LatestOnlyUnwrapping::is_terminated(self)
    }
}

impl<T, E, N, I, Incoming, Outgoing> Order for LatestOnlyUnwrapping<T, E, N, I, Incoming, Outgoing> {

}

} // verus!
