use crate::error::RelayError;
use vstd::prelude::*;

verus! {

/// The single shared connection: empty until a dial succeeds, replaced
/// wholesale by each later successful dial.
pub struct ClientSlot<C> {
    pub current: Option<C>,
}

impl<C> ClientSlot<C> {
    /// The slot after a dial that produced `dialed`.
    pub open spec fn after_connect<E>(self, dialed: Result<C, E>) -> ClientSlot<C> {
        match dialed {
            Ok(c) => ClientSlot { current: Some(c) },
            Err(_) => self,
        }
    }

    /// What a command obtains from the slot.
    pub open spec fn acquired(self) -> Result<C, RelayError> {
        match self.current {
            Some(c) => Ok(c),
            None => Err(RelayError::NotInitialized),
        }
    }

    /// An empty slot, made once at startup.
    pub fn new() -> (r: Self)
        ensures
            r.current is None,
    {
        ClientSlot { current: None }
    }

    /// Stores the outcome of a dial: a new connection replaces any earlier one,
    /// a failed dial leaves the slot as it was.
    pub fn connect<E>(&mut self, dialed: Result<C, E>) -> (r: Result<String, RelayError>)
        ensures
            *final(self) == old(self).after_connect(dialed),
            dialed is Ok ==> r is Ok && r->Ok_0@ == "Connected"@,
            dialed is Err ==> r is Err && r->Err_0 == RelayError::Connection,
    {
        match dialed {
            Ok(c) => {
                self.current = Some(c);
                Ok(String::from_str("Connected"))
            },
            Err(_) => Err(RelayError::Connection),
        }
    }

    /// The connection to use, or `NotInitialized` while the slot is empty.
    pub fn acquire(&self) -> (r: Result<&C, RelayError>)
        ensures
            match r {
                Ok(c) => self.current == Some(*c),
                Err(e) => self.current is None && e == RelayError::NotInitialized,
            },
    {
        match &self.current {
            Some(c) => Ok(c),
            None => Err(RelayError::NotInitialized),
        }
    }
}

/// Reconnecting replaces the handle: after two successful dials the slot
/// holds the second connection, while a handle taken before the second dial
/// is still the first one.
pub proof fn lemma_reconnect_replaces<C, E>(slot: ClientSlot<C>, first: C, second: C)
    ensures
        slot.after_connect(Ok::<C, E>(first)).acquired() == Ok::<C, RelayError>(first),
        slot.after_connect(Ok::<C, E>(first)).after_connect(Ok::<C, E>(second)).acquired()
            == Ok::<C, RelayError>(second),
{
}

/// A failed dial leaves whatever connection was there.
pub proof fn lemma_failed_connect_keeps<C, E>(slot: ClientSlot<C>, err: E)
    ensures
        slot.after_connect(Err::<C, E>(err)) == slot,
{
}

} // verus!
