//! A pair of counters for attempts that succeeded and attempts that failed.

use vstd::prelude::*;

verus! {

/// The sum of two numbers below `modulus`, taken back into that range:
/// what an unsigned machine addition gives when it is allowed to wrap.
pub open spec fn wrapped_sum(a: nat, b: nat, modulus: nat) -> nat {
    if a + b >= modulus {
        (a + b - modulus) as nat
    } else {
        a + b
    }
}

/// An unsigned machine integer that a counter can be made of.
///
/// Every value stands for a natural number below `modulus()`, and no two
/// values stand for the same one. Addition wraps.
pub trait CounterInt: Copy + Sized {
    /// The number this value stands for.
    spec fn value(self) -> nat;

    /// How many values the type has: one more than the largest.
    spec fn modulus() -> nat;

    proof fn lemma_value_below_modulus(self)
        ensures
            self.value() < Self::modulus(),
    ;

    proof fn lemma_value_determines(self, other: Self)
        requires
            self.value() == other.value(),
        ensures
            self == other,
    ;

    fn zero() -> (z: Self)
        ensures
            z.value() == 0,
    ;

    fn one() -> (o: Self)
        ensures
            o.value() == 1,
    ;

    fn wrapping_sum(self, rhs: Self) -> (sum: Self)
        ensures
            sum.value() == wrapped_sum(self.value(), rhs.value(), Self::modulus()),
    ;
}

impl CounterInt for u8 {
    open spec fn value(self) -> nat {
        self as nat
    }

    open spec fn modulus() -> nat {
        u8::MAX as nat + 1
    }

    proof fn lemma_value_below_modulus(self) {
    }

    proof fn lemma_value_determines(self, other: Self) {
    }

    fn zero() -> (z: Self) {
        0
    }

    fn one() -> (o: Self) {
        1
    }

    fn wrapping_sum(self, rhs: Self) -> (sum: Self) {
        self.wrapping_add(rhs)
    }
}

impl CounterInt for u16 {
    open spec fn value(self) -> nat {
        self as nat
    }

    open spec fn modulus() -> nat {
        u16::MAX as nat + 1
    }

    proof fn lemma_value_below_modulus(self) {
    }

    proof fn lemma_value_determines(self, other: Self) {
    }

    fn zero() -> (z: Self) {
        0
    }

    fn one() -> (o: Self) {
        1
    }

    fn wrapping_sum(self, rhs: Self) -> (sum: Self) {
        self.wrapping_add(rhs)
    }
}

impl CounterInt for u32 {
    open spec fn value(self) -> nat {
        self as nat
    }

    open spec fn modulus() -> nat {
        u32::MAX as nat + 1
    }

    proof fn lemma_value_below_modulus(self) {
    }

    proof fn lemma_value_determines(self, other: Self) {
    }

    fn zero() -> (z: Self) {
        0
    }

    fn one() -> (o: Self) {
        1
    }

    fn wrapping_sum(self, rhs: Self) -> (sum: Self) {
        self.wrapping_add(rhs)
    }
}

impl CounterInt for u64 {
    open spec fn value(self) -> nat {
        self as nat
    }

    open spec fn modulus() -> nat {
        u64::MAX as nat + 1
    }

    proof fn lemma_value_below_modulus(self) {
    }

    proof fn lemma_value_determines(self, other: Self) {
    }

    fn zero() -> (z: Self) {
        0
    }

    fn one() -> (o: Self) {
        1
    }

    fn wrapping_sum(self, rhs: Self) -> (sum: Self) {
        self.wrapping_add(rhs)
    }
}

impl CounterInt for u128 {
    open spec fn value(self) -> nat {
        self as nat
    }

    open spec fn modulus() -> nat {
        u128::MAX as nat + 1
    }

    proof fn lemma_value_below_modulus(self) {
    }

    proof fn lemma_value_determines(self, other: Self) {
    }

    fn zero() -> (z: Self) {
        0
    }

    fn one() -> (o: Self) {
        1
    }

    fn wrapping_sum(self, rhs: Self) -> (sum: Self) {
        self.wrapping_add(rhs)
    }
}

impl CounterInt for usize {
    open spec fn value(self) -> nat {
        self as nat
    }

    open spec fn modulus() -> nat {
        usize::MAX as nat + 1
    }

    proof fn lemma_value_below_modulus(self) {
    }

    proof fn lemma_value_determines(self, other: Self) {
    }

    fn zero() -> (z: Self) {
        0
    }

    fn one() -> (o: Self) {
        1
    }

    fn wrapping_sum(self, rhs: Self) -> (sum: Self) {
        self.wrapping_add(rhs)
    }
}

/// What a [`SuccessFailureCounter`] holds, as numbers.
pub struct CounterView {
    pub successes: nat,
    pub failures: nat,
}

impl CounterView {
    /// A counter that has seen nothing.
    pub open spec fn zero() -> CounterView {
        CounterView { successes: 0, failures: 0 }
    }

    /// This counter after `amount` more successes, in a type with `modulus` values.
    pub open spec fn succeed(self, amount: nat, modulus: nat) -> CounterView {
        CounterView { successes: wrapped_sum(self.successes, amount, modulus), failures: self.failures }
    }

    /// This counter after `amount` more failures, in a type with `modulus` values.
    pub open spec fn fail(self, amount: nat, modulus: nat) -> CounterView {
        CounterView { successes: self.successes, failures: wrapped_sum(self.failures, amount, modulus) }
    }

    /// Successes and failures together, in a type with `modulus` values.
    pub open spec fn attempts(self, modulus: nat) -> nat {
        wrapped_sum(self.successes, self.failures, modulus)
    }

    /// Whether both counts are values of a type with `modulus` values.
    pub open spec fn in_range(self, modulus: nat) -> bool {
        self.successes < modulus && self.failures < modulus
    }
}

/// A struct for counting successful and failed attempts.
///
/// Both counts wrap around at the largest value of `T`.
#[derive(Debug, Clone, Copy, PartialEq, Eq)]
pub struct SuccessFailureCounter<T: CounterInt> {
    success_ctr: T,
    failure_ctr: T,
}

impl<T: CounterInt> View for SuccessFailureCounter<T> {
    type V = CounterView;

    closed spec fn view(&self) -> CounterView {
        CounterView { successes: self.success_ctr.value(), failures: self.failure_ctr.value() }
    }
}

impl<T: CounterInt> Default for SuccessFailureCounter<T> {
    fn default() -> (counter: Self)
        ensures
            counter@ == CounterView::zero(),
    {
        SuccessFailureCounter { success_ctr: T::zero(), failure_ctr: T::zero() }
    }
}

impl<T: CounterInt> SuccessFailureCounter<T> {
    /// The counts of a counter are values of its type.
    pub proof fn lemma_in_range(&self)
        ensures
            self@.in_range(T::modulus()),
    {
        self.success_ctr.lemma_value_below_modulus();
        self.failure_ctr.lemma_value_below_modulus();
    }

    /// Counts one more success.
    pub fn increment_success(&mut self)
        ensures
            final(self)@ == old(self)@.succeed(1, T::modulus()),
    {
        self.success_ctr = self.success_ctr.wrapping_sum(T::one());
    }

    /// Counts `amount` more successes.
    pub fn add_successes(&mut self, amount: T)
        ensures
            final(self)@ == old(self)@.succeed(amount.value(), T::modulus()),
    {
        self.success_ctr = self.success_ctr.wrapping_sum(amount);
    }

    /// The successes counted so far.
    pub fn success_ctr(&self) -> (count: T)
        ensures
            count.value() == self@.successes,
    {
        self.success_ctr
    }

    /// Counts one more failure.
    pub fn increment_failure(&mut self)
        ensures
            final(self)@ == old(self)@.fail(1, T::modulus()),
    {
        self.failure_ctr = self.failure_ctr.wrapping_sum(T::one());
    }

    /// Counts `amount` more failures.
    pub fn add_failures(&mut self, amount: T)
        ensures
            final(self)@ == old(self)@.fail(amount.value(), T::modulus()),
    {
        self.failure_ctr = self.failure_ctr.wrapping_sum(amount);
    }

    /// The failures counted so far.
    pub fn failure_ctr(&self) -> (count: T)
        ensures
            count.value() == self@.failures,
    {
        self.failure_ctr
    }

    /// Successes and failures together.
    pub fn attempt_ctr(&self) -> (count: T)
        ensures
            count.value() == self@.attempts(T::modulus()),
    {
        self.success_ctr.wrapping_sum(self.failure_ctr)
    }
}

} // verus!
