use std::task::Poll;
use std::time::Instant;
use vstd::prelude::*;

verus! {

/// `std::time::Instant`, carried through as an opaque value.
#[verifier::external_type_specification]
#[verifier::external_body]
pub struct ExInstant(Instant);

/// `std::task::Poll`, whose two variants verified code builds and matches.
#[verifier::external_type_specification]
#[verifier::reject_recursive_types(T)]
pub struct ExPoll<T>(Poll<T>);

/// Relies on `Instant::now`: a reading of the monotonic clock. Nothing is
/// known of the value.
#[verifier::external_body]
fn clock_now() -> (r: Instant) {
    Instant::now()
}

/// Relies on `Instant::elapsed` and `Duration::as_millis`: the whole
/// milliseconds since `start`. It depends on the clock, so nothing is stated.
#[verifier::external_body]
fn millis_since(start: &Instant) -> (r: u128) {
    start.elapsed().as_millis()
}

/// A value that becomes available once a given number of milliseconds has
/// passed since its creation, and is handed out once.
pub struct DelayedValue<T> {
    start: Instant,
    duration_ms: u64,
    value: Option<T>,
}

impl<T> DelayedValue<T> {
    /// The value still held: `None` once it has been handed out.
    pub closed spec fn held(&self) -> Option<T> {
        self.value
    }

    /// The clock reading taken at creation, from which the delay runs.
    pub closed spec fn started(&self) -> Instant {
        self.start
    }

    /// The delay, in milliseconds, after which the value is ready.
    pub closed spec fn delay(&self) -> nat {
        self.duration_ms as nat
    }

    /// Holds `value` until `duration_ms` milliseconds from now have passed.
    pub fn new(duration_ms: u64, value: T) -> (r: Self)
        ensures
            r.held() == Some(value),
            r.delay() == duration_ms,
    {
        DelayedValue { start: clock_now(), duration_ms, value: Some(value) }
    }

    /// Whether the value has already been handed out.
    pub fn is_taken(&self) -> (r: bool)
        ensures
            r == (self.held() is None),
    {
        self.value.is_none()
    }

    /// Decides a poll made `elapsed_ms` milliseconds after creation: once the
    /// delay has passed the value is handed out, before that nothing changes.
    /// Once the delay has passed a value must still be held.
    pub fn poll_elapsed(&mut self, elapsed_ms: u128) -> (r: Poll<T>)
        requires
            elapsed_ms >= old(self).delay() ==> old(self).held() is Some,
        ensures
            final(self).delay() == old(self).delay(),
            final(self).started() == old(self).started(),
            elapsed_ms >= old(self).delay() ==> r == Poll::Ready(old(self).held()->0)
                && final(self).held() is None,
            elapsed_ms < old(self).delay() ==> r == Poll::<T>::Pending && final(self).held()
                == old(self).held(),
    {
        if elapsed_ms >= self.duration_ms as u128 {
            match self.value.take() {
                Some(v) => Poll::Ready(v),
                None => Poll::Pending,
            }
        } else {
            Poll::Pending
        }
    }

    /// Polls against the clock: either the held value comes out and the
    /// holder is emptied, or nothing changes. With no delay the value comes
    /// out on the first poll, whatever the clock reads.
    pub fn poll(&mut self) -> (r: Poll<T>)
        requires
            old(self).held() is Some,
        ensures
            final(self).delay() == old(self).delay(),
            final(self).started() == old(self).started(),
            old(self).delay() == 0 ==> r == Poll::Ready(old(self).held()->0) && final(self).held()
                is None,
            match r {
                Poll::Ready(v) => v == old(self).held()->0 && final(self).held() is None,
                Poll::Pending => final(self).held() == old(self).held(),
            },
    {
        let elapsed = millis_since(&self.start);
        self.poll_elapsed(elapsed)
    }
}

} // verus!
