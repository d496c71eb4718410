use vstd::prelude::*;

verus! {

/// A second write to a set-once slot.
#[derive(Debug, Clone, Copy, PartialEq, Eq, Structural)]
pub struct AlreadyInitialized;

/// What a slot holds after a write of `value` to a slot that held `current`.
pub open spec fn after_set<T>(current: Option<T>, value: T) -> Option<T> {
    match current {
        Some(v) => Some(v),
        None => Some(value),
    }
}

/// A process-wide value that start-up writes once and everything after reads.
pub struct Slot<T> {
    value: Option<T>,
}

impl<T> View for Slot<T> {
    type V = Option<T>;

    closed spec fn view(&self) -> Option<T> {
        self.value
    }
}

impl<T> Slot<T> {
    /// A slot that nothing has written yet.
    pub fn new() -> (r: Self)
        ensures
            r@ is None,
    {
        Slot { value: None }
    }

    pub fn is_set(&self) -> (r: bool)
        ensures
            r == self@ is Some,
    {
        self.value.is_some()
    }

    /// The first write succeeds and is kept; every later one fails and changes nothing.
    pub fn set(&mut self, value: T) -> (r: Result<(), AlreadyInitialized>)
        ensures
            r is Ok <==> old(self)@ is None,
            final(self)@ == after_set(old(self)@, value),
    {
        if self.value.is_some() {
            Err(AlreadyInitialized)
        } else {
            self.value = Some(value);
            Ok(())
        }
    }

    /// The value written. Reading a slot before its write is a start-up ordering fault.
    pub fn get(&self) -> (r: &T)
        requires
            self@ is Some,
        ensures
            *r == self@->0,
    {
        self.value.as_ref().unwrap()
    }

    /// The value written, if any.
    pub fn try_get(&self) -> (r: Option<&T>)
        ensures
            r is Some <==> self@ is Some,
            r matches Some(v) ==> *v == self@->0,
    {
        match &self.value {
            Some(v) => Some(v),
            None => None,
        }
    }
}

/// A slot is write-once: on an empty slot a write succeeds and every later read sees
/// that value; a second write fails and leaves the first value in place.
pub proof fn lemma_write_once<T>(first: T, second: T)
    ensures
        after_set(None, first) == Some(first),
        after_set(after_set(None, first), second) == Some(first),
        after_set(None, first) is Some,
{
}

} // verus!
