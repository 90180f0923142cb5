//! Wrapper transport attaching a number to messages.
//!
//! The first message sent gets the number zero, each later one the number of
//! the message before it plus one. After the largest number of the number
//! type comes zero again.

use vstd::prelude::*;
use core::marker::PhantomData;
use std::task::Waker;
use vstd::arithmetic::div_mod::{lemma_fundamental_div_mod, lemma_fundamental_div_mod_converse, lemma_small_mod};
use crate::error::Error;
use crate::poll::Polled;
use crate::transport::Transport;

verus! {

/// Trait implemented by messages with attached number.
pub trait Number {
    /// Message number type.
    type Output;

    /// The number that the message carries.
    spec fn number_of(&self) -> Self::Output;

    /// Message number.
    fn number(&self) -> (number: Self::Output)
        ensures
            number == self.number_of(),
    ;
}

/// Trait implemented by numbered messages that can be unwrapped into the
/// message that they carry.
pub trait Unwrap {
    /// Type of wrapped message.
    type Output;

    /// The message that was wrapped.
    spec fn unwrapped(self) -> Self::Output;

    /// Unwrap message.
    fn unwrap(self) -> (wrapped: Self::Output)
        ensures
            wrapped == self.unwrapped(),
    ;
}

/// Message wrapper used by [`Numbered`] transport.
#[derive(Debug, PartialEq, Eq)]
pub struct Wrapper<N, T> {
    /// Message number.
    pub number: N,
    /// Wrapped message.
    pub wrapped: T,
}

impl<N: Copy, T> Number for Wrapper<N, T> {
    type Output = N;

    open spec fn number_of(&self) -> N {
        self.number
    }

    fn number(&self) -> N {
        self.number
    }
}

impl<N, T> Unwrap for Wrapper<N, T> {
    type Output = T;

    open spec fn unwrapped(self) -> T {
        self.wrapped
    }

    fn unwrap(self) -> T {
        self.wrapped
    }
}

/// The number that follows `value` where numbers run from zero up to, but not
/// including, `modulus`: the next one, and after the last one zero again.
pub open spec fn following(value: nat, modulus: nat) -> nat {
    if value + 1 >= modulus {
        0
    } else {
        value + 1
    }
}

/// The number of the message that is sent after `count` others: the result of
/// stepping `count` times from zero.
pub open spec fn nth_number(count: nat, modulus: nat) -> nat
    decreases count,
{
    if count == 0 {
        0
    } else {
        following(nth_number((count - 1) as nat, modulus), modulus)
    }
}

/// The numbers attached to successive messages are 0, 1, 2, ... taken modulo
/// the size of the number type.
pub proof fn lemma_nth_number(count: nat, modulus: nat)
    requires
        modulus > 0,
    ensures
        nth_number(count, modulus) == count % modulus,
    decreases count,
{
    if count > 0 {
        let before = (count - 1) as nat;
        lemma_nth_number(before, modulus);
        let quotient = before as int / modulus as int;
        let remainder = before as int % modulus as int;
        lemma_fundamental_div_mod(before as int, modulus as int);
        if remainder + 1 >= modulus {
            assert(count == (quotient + 1) * modulus + 0) by (nonlinear_arith)
                requires
                    before == modulus * quotient + remainder,
                    remainder + 1 == modulus,
                    count == before + 1,
            ;
            lemma_fundamental_div_mod_converse(count as int, modulus as int, quotient + 1, 0);
        } else {
            assert(count == quotient * modulus + (remainder + 1)) by (nonlinear_arith)
                requires
                    before == modulus * quotient + remainder,
                    count == before + 1,
            ;
            lemma_fundamental_div_mod_converse(
                count as int,
                modulus as int,
                quotient,
                remainder + 1,
            );
        }
    } else {
        lemma_small_mod(0, modulus);
    }
}

/// Whether `number` is newer than `other` where numbers run from zero up to,
/// but not including, `modulus` and then start again: `number` lies ahead of
/// `other` by less than half of the range.
pub open spec fn serially_newer(number: nat, other: nat, modulus: nat) -> bool {
    let ahead = if number >= other {
        number - other
    } else {
        number + modulus - other
    };
    0 < ahead && 2 * ahead < modulus
}

/// For every number type, the numbers attached to successive messages are 0,
/// 1, 2, ... taken modulo the size of the type.
pub proof fn lemma_numbers_of<N: Counter>(count: nat)
    ensures
        nth_number(count, N::modulus()) == count % N::modulus(),
{
    N::lemma_modulus();
    lemma_nth_number(count, N::modulus());
}

/// An unsigned number type whose values count messages.
pub trait Counter: Copy + Sized {
    /// The number that a value stands for.
    spec fn value(self) -> nat;

    /// How many values the type has: its largest value plus one.
    spec fn modulus() -> nat;

    /// The type has values.
    proof fn lemma_modulus()
        ensures
            Self::modulus() > 0,
    ;

    /// Each value stands for a number below the count of values.
    proof fn lemma_range(self)
        ensures
            self.value() < Self::modulus(),
    ;

    /// The first number.
    fn zero() -> (zero: Self)
        ensures
            zero.value() == 0,
    ;

    /// The number after this one; after the largest comes zero again.
    fn successor(self) -> (next: Self)
        ensures
            next.value() == following(self.value(), Self::modulus()),
    ;

    /// Whether this number is newer than `other`, in the natural order of
    /// numbers. After the numbers have wrapped around, the numbers before the
    /// wrap count as newer than those after it.
    fn newer_than(self, other: Self) -> (newer: bool)
        ensures
            newer == (self.value() > other.value()),
    ;

    /// Whether this number is newer than `other` where numbers wrap around:
    /// it lies ahead of `other` by less than half of the type's range. A
    /// number that has wrapped around to zero is then newer than the numbers
    /// shortly before the wrap.
    fn serially_newer_than(self, other: Self) -> (newer: bool)
        ensures
            newer == serially_newer(self.value(), other.value(), Self::modulus()),
    ;
}

impl Counter for u8 {
    open spec fn value(self) -> nat {
        self as nat
    }

    open spec fn modulus() -> nat {
        (u8::MAX + 1) as nat
    }

    proof fn lemma_modulus() {
    }

    proof fn lemma_range(self) {
    }

    fn zero() -> u8 {
        0
    }

    fn successor(self) -> u8 {
        self.wrapping_add(1)
    }

    fn newer_than(self, other: u8) -> bool {
        self > other
    }

    fn serially_newer_than(self, other: u8) -> bool {
        let ahead = self.wrapping_sub(other);
        ahead != 0 && ahead <= u8::MAX / 2
    }
}

impl Counter for u16 {
    open spec fn value(self) -> nat {
        self as nat
    }

    open spec fn modulus() -> nat {
        (u16::MAX + 1) as nat
    }

    proof fn lemma_modulus() {
    }

    proof fn lemma_range(self) {
    }

    fn zero() -> u16 {
        0
    }

    fn successor(self) -> u16 {
        self.wrapping_add(1)
    }

    fn newer_than(self, other: u16) -> bool {
        self > other
    }

    fn serially_newer_than(self, other: u16) -> bool {
        let ahead = self.wrapping_sub(other);
        ahead != 0 && ahead <= u16::MAX / 2
    }
}

impl Counter for u32 {
    open spec fn value(self) -> nat {
        self as nat
    }

    open spec fn modulus() -> nat {
        (u32::MAX + 1) as nat
    }

    proof fn lemma_modulus() {
    }

    proof fn lemma_range(self) {
    }

    fn zero() -> u32 {
        0
    }

    fn successor(self) -> u32 {
        self.wrapping_add(1)
    }

    fn newer_than(self, other: u32) -> bool {
        self > other
    }

    fn serially_newer_than(self, other: u32) -> bool {
        let ahead = self.wrapping_sub(other);
        ahead != 0 && ahead <= u32::MAX / 2
    }
}

impl Counter for u64 {
    open spec fn value(self) -> nat {
        self as nat
    }

    open spec fn modulus() -> nat {
        (u64::MAX + 1) as nat
    }

    proof fn lemma_modulus() {
    }

    proof fn lemma_range(self) {
    }

    fn zero() -> u64 {
        0
    }

    fn successor(self) -> u64 {
        self.wrapping_add(1)
    }

    fn newer_than(self, other: u64) -> bool {
        self > other
    }

    fn serially_newer_than(self, other: u64) -> bool {
        let ahead = self.wrapping_sub(other);
        ahead != 0 && ahead <= u64::MAX / 2
    }
}

impl Counter for u128 {
    open spec fn value(self) -> nat {
        self as nat
    }

    open spec fn modulus() -> nat {
        (u128::MAX + 1) as nat
    }

    proof fn lemma_modulus() {
    }

    proof fn lemma_range(self) {
    }

    fn zero() -> u128 {
        0
    }

    fn successor(self) -> u128 {
        self.wrapping_add(1)
    }

    fn newer_than(self, other: u128) -> bool {
        self > other
    }

    fn serially_newer_than(self, other: u128) -> bool {
        let ahead = self.wrapping_sub(other);
        ahead != 0 && ahead <= u128::MAX / 2
    }
}

impl Counter for usize {
    open spec fn value(self) -> nat {
        self as nat
    }

    open spec fn modulus() -> nat {
        (usize::MAX + 1) as nat
    }

    proof fn lemma_modulus() {
    }

    proof fn lemma_range(self) {
    }

    fn zero() -> usize {
        0
    }

    fn successor(self) -> usize {
        self.wrapping_add(1)
    }

    fn newer_than(self, other: usize) -> bool {
        self > other
    }

    fn serially_newer_than(self, other: usize) -> bool {
        let ahead = self.wrapping_sub(other);
        ahead != 0 && ahead <= usize::MAX / 2
    }
}

/// Wrapper transport attaching number to sent messages.
///
/// Received messages are of [`Wrapper`] type and are handed on as they come.
pub struct Numbered<N, T, E, Incoming, Outgoing> {
    inner: T,
    current_number: N,
    _error: PhantomData<E>,
    _incoming: PhantomData<Incoming>,
    _outgoing: PhantomData<Outgoing>,
}

impl<N: Counter, T, E, Incoming, Outgoing> Numbered<N, T, E, Incoming, Outgoing> where
    T: Transport<Wrapper<N, Incoming>, Wrapper<N, Outgoing>, E>,
 {
    /// The number that the next message gets.
    pub closed spec fn current(&self) -> N {
        self.current_number
    }

    /// The transport that the messages are handed to.
    pub closed spec fn inner(&self) -> T {
        self.inner
    }

    /// Create new numbered transport wrapping provided transport. The first
    /// message gets the number zero.
    pub fn new(transport: T) -> (numbered: Self)
        ensures
            numbered.current().value() == 0,
            numbered.inner() == transport,
    {
        Numbered {
            inner: transport,
            current_number: N::zero(),
            _error: PhantomData,
            _incoming: PhantomData,
            _outgoing: PhantomData,
        }
    }

    /// Number that will be given attached the next sent message.
    pub fn current_number(&self) -> (number: N)
        ensures
            number == self.current(),
    {
        self.current_number
    }

    /// The wrapped transport.
    pub fn get_ref(&self) -> (inner: &T)
        ensures
            *inner == self.inner(),
    {
        &self.inner
    }

    /// The wrapped transport, to be driven. The number that the next message
    /// gets stays as it is.
    pub fn get_mut(&mut self) -> (inner: &mut T)
        ensures
            *inner == old(self).inner(),
            final(self).inner() == *final(inner),
            final(self).current() == old(self).current(),
    {
        &mut self.inner
    }

    /// The message as it is handed to the wrapped transport: with the current
    /// number attached.
    pub fn wrap(&self, item: Outgoing) -> (wrapper: Wrapper<N, Outgoing>)
        ensures
            wrapper.number == self.current(),
            wrapper.wrapped == item,
    {
        Wrapper { number: self.current_number, wrapped: item }
    }

    /// Takes in what the wrapped transport answered to a message: the number
    /// advances exactly if the message was accepted. The answer is handed on.
    pub fn record(&mut self, answer: Result<(), Error<E>>) -> (result: Result<(), Error<E>>)
        ensures
            result == answer,
            final(self).inner() == old(self).inner(),
            final(self).current().value() == if answer is Ok {
                following(old(self).current().value(), N::modulus())
            } else {
                old(self).current().value()
            },
            answer is Err ==> final(self).current() == old(self).current(),
    {
        if answer.is_ok() {
            self.current_number = self.current_number.successor();
        }
        answer
    }

    /// What sending does: the wrapped transport is handed the message with
    /// the current number attached, and its answer is the answer; the number
    /// advances exactly if it accepts the message.
    pub open spec fn sent(
        before: &Self,
        item: Outgoing,
        after: &Self,
        answer: Result<(), Error<E>>,
    ) -> bool {
        &&& T::sends(
            &before.inner(),
            Wrapper { number: before.current(), wrapped: item },
            &after.inner(),
            answer,
        )
        &&& after.current().value() == if answer is Ok {
            following(before.current().value(), N::modulus())
        } else {
            before.current().value()
        }
        &&& answer is Err ==> after.current() == before.current()
    }

    /// Sends a message with the current number attached. The number advances
    /// exactly if the wrapped transport accepts the message.
    pub fn start_send(&mut self, item: Outgoing) -> (result: Result<(), Error<E>>)
        ensures
            Self::sent(old(self), item, final(self), result),
    {
        let item = self.wrap(item);
        let answer = self.inner.start_send(item);
        self.record(answer)
    }

    /// Asks the wrapped transport whether it can take a message: the answer
    /// is the wrapped transport's.
    pub fn poll_ready(&mut self, waker: &Waker) -> (polled: Polled<Result<(), Error<E>>>)
        ensures
            T::readies(&old(self).inner(), &final(self).inner(), polled),
            final(self).current() == old(self).current(),
    {
        self.inner.poll_ready(waker)
    }

    /// Flushes the wrapped transport: the answer is the wrapped transport's.
    pub fn poll_flush(&mut self, waker: &Waker) -> (polled: Polled<Result<(), Error<E>>>)
        ensures
            T::flushes(&old(self).inner(), &final(self).inner(), polled),
            final(self).current() == old(self).current(),
    {
        self.inner.poll_flush(waker)
    }

    /// Closes the wrapped transport: the answer is the wrapped transport's.
    pub fn poll_close(&mut self, waker: &Waker) -> (polled: Polled<Result<(), Error<E>>>)
        ensures
            T::closes(&old(self).inner(), &final(self).inner(), polled),
            final(self).current() == old(self).current(),
    {
        self.inner.poll_close(waker)
    }

    /// Gives what the wrapped transport receives, number and all.
    pub fn poll_next(&mut self, waker: &Waker) -> (polled: Polled<
        Option<Result<Wrapper<N, Incoming>, E>>,
    >)
        ensures
            T::polls(&old(self).inner(), &final(self).inner(), polled),
            final(self).current() == old(self).current(),
    {
        self.inner.poll_next(waker)
    }

    /// Tells whether the wrapped transport's stream has ended.
    pub fn is_terminated(&self) -> (terminated: bool)
        ensures
            self.inner().tells(terminated),
    {
        self.inner.is_terminated()
    }
}

impl<T, E, Incoming, Outgoing> Numbered<usize, T, E, Incoming, Outgoing> where
    T: Transport<Wrapper<usize, Incoming>, Wrapper<usize, Outgoing>, E>,
 {
    /// Create new [`Numbered`] transport using [`usize`] type as message
    /// number.
    pub fn new_usize(transport: T) -> (numbered: Self)
        ensures
            numbered.current() == 0,
            numbered.inner() == transport,
    {
        Numbered::new(transport)
    }
}

impl<T, E, Incoming, Outgoing> Numbered<u32, T, E, Incoming, Outgoing> where
    T: Transport<Wrapper<u32, Incoming>, Wrapper<u32, Outgoing>, E>,
 {
    /// Create new [`Numbered`] transport using [`u32`] type as message number.
    pub fn new_u32(transport: T) -> (numbered: Self)
        ensures
            numbered.current() == 0,
            numbered.inner() == transport,
    {
        Numbered::new(transport)
    }
}

impl<T, E, Incoming, Outgoing> Numbered<u64, T, E, Incoming, Outgoing> where
    T: Transport<Wrapper<u64, Incoming>, Wrapper<u64, Outgoing>, E>,
 {
    /// Create new [`Numbered`] transport using [`u64`] type as message number.
    pub fn new_u64(transport: T) -> (numbered: Self)
        ensures
            numbered.current() == 0,
            numbered.inner() == transport,
    {
        Numbered::new(transport)
    }
}

impl<T, E, Incoming, Outgoing> Numbered<u128, T, E, Incoming, Outgoing> where
    T: Transport<Wrapper<u128, Incoming>, Wrapper<u128, Outgoing>, E>,
 {
    /// Create new [`Numbered`] transport using [`u128`] type as message
    /// number.
    pub fn new_u128(transport: T) -> (numbered: Self)
        ensures
            numbered.current() == 0,
            numbered.inner() == transport,
    {
        Numbered::new(transport)
    }
}

impl<N: Counter, T, E, Incoming, Outgoing> Transport<
    Wrapper<N, Incoming>,
    Outgoing,
    E,
> for Numbered<N, T, E, Incoming, Outgoing> where
    T: Transport<Wrapper<N, Incoming>, Wrapper<N, Outgoing>, E>,
 {
    open spec fn readies(before: &Self, after: &Self, polled: Polled<Result<(), Error<E>>>) -> bool {
        &&& T::readies(&before.inner(), &after.inner(), polled)
        &&& after.current() == before.current()
    }

    open spec fn sends(
        before: &Self,
        item: Outgoing,
        after: &Self,
        answer: Result<(), Error<E>>,
    ) -> bool {
        Numbered::sent(before, item, after, answer)
    }

    open spec fn flushes(before: &Self, after: &Self, polled: Polled<Result<(), Error<E>>>) -> bool {
        &&& T::flushes(&before.inner(), &after.inner(), polled)
        &&& after.current() == before.current()
    }

    open spec fn closes(before: &Self, after: &Self, polled: Polled<Result<(), Error<E>>>) -> bool {
        &&& T::closes(&before.inner(), &after.inner(), polled)
        &&& after.current() == before.current()
    }

    open spec fn polls(
        before: &Self,
        after: &Self,
        polled: Polled<Option<Result<Wrapper<N, Incoming>, E>>>,
    ) -> bool {
        &&& T::polls(&before.inner(), &after.inner(), polled)
        &&& after.current() == before.current()
    }

    open spec fn tells(&self, terminated: bool) -> bool {
        self.inner().tells(terminated)
    }

    fn poll_ready(&mut self, waker: &Waker) -> Polled<Result<(), Error<E>>> {
        Numbered::poll_ready(self, waker)
    }

    fn start_send(&mut self, item: Outgoing) -> Result<(), Error<E>> {
        Numbered::start_send(self, item)
    }

    fn poll_flush(&mut self, waker: &Waker) -> Polled<Result<(), Error<E>>> {
        Numbered::poll_flush(self, waker)
    }

    fn poll_close(&mut self, waker: &Waker) -> Polled<Result<(), Error<E>>> {
        Numbered::poll_close(self, waker)
    }

    fn poll_next(&mut self, waker: &Waker) -> Polled<Option<Result<Wrapper<N, Incoming>, E>>> {
        Numbered::poll_next(self, waker)
    }

    fn is_terminated(&self) -> bool {
        Numbered::is_terminated(self)
    }
}

} // verus!
