//! The slot that holds the live session, at most one at a time.
use vstd::prelude::*;

verus! {

/// Holds at most one live session. Emptied on shutdown; a restart installs a
/// fresh session explicitly, nothing refills it on its own.
pub struct SessionSlot<C> {
    context: Option<C>,
}

impl<C> View for SessionSlot<C> {
    type V = Option<C>;

    closed spec fn view(&self) -> Option<C> {
        self.context
    }
}

impl<C> SessionSlot<C> {
    /// A slot holding `context`.
    pub fn new(context: C) -> (r: SessionSlot<C>)
        ensures
            r@ == Some(context),
    {
        SessionSlot { context: Some(context) }
    }

    /// A slot holding nothing.
    pub fn empty() -> (r: SessionSlot<C>)
        ensures
            r@ is None,
    {
        SessionSlot { context: None }
    }

    /// Whether a session is live.
    pub fn is_live(&self) -> (r: bool)
        ensures
            r == self@ is Some,
    {
        self.context.is_some()
    }

    /// The live session, if any.
    pub fn current(&self) -> (r: Option<&C>)
        ensures
            match r {
                Some(c) => self@ == Some(*c),
                None => self@ is None,
            },
    {
        self.context.as_ref()
    }

    /// Removes and returns the live session; the slot is empty afterwards,
    /// also where it was empty before.
    pub fn take(&mut self) -> (r: Option<C>)
        ensures
            r == old(self)@,
            final(self)@ is None,
    {
        self.context.take()
    }

    /// Puts `context` in the slot and returns the session it replaces.
    pub fn install(&mut self, context: C) -> (r: Option<C>)
        ensures
            r == old(self)@,
            final(self)@ == Some(context),
    {
        let previous = self.context.take();
        self.context = Some(context);
        previous
    }
}

/// Drops the live session, if any: the slot is left empty for good.
pub fn shutdown_driver<C>(slot: &mut SessionSlot<C>)
    ensures
        final(slot)@ is None,
{
    let _ = slot.take();
}

} // verus!
