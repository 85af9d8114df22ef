//! A single-slot mailbox: the state behind a channel that keeps only the most
//! recent message. A newer message replaces one that has not been read yet,
//! and closing either end is the only shutdown signal. The owner supplies the
//! locking and the waiting; this type decides what each operation does.
use vstd::prelude::*;

verus! {

/// What a receiver gets from the mailbox.
#[derive(Clone, Copy, PartialEq, Eq, Debug)]
pub enum Received<T> {
    /// The most recent message.
    Value(T),
    /// Nothing new yet; the sender is still there.
    Empty,
    /// Nothing new, and the mailbox has been closed.
    Closed,
}

pub struct Mailbox<T> {
    slot: Option<T>,
    open: bool,
}

impl<T> Mailbox<T> {
    /// The unread message, if any.
    pub closed spec fn pending(&self) -> Option<T> {
        self.slot
    }

    /// Whether neither end has closed the mailbox.
    pub closed spec fn accepting(&self) -> bool {
        self.open
    }

    /// An open, empty mailbox.
    pub fn new() -> (r: Mailbox<T>)
        ensures
            r.pending() is None,
            r.accepting(),
    {
        Mailbox { slot: None, open: true }
    }

    /// Whether the mailbox has been closed.
    pub fn is_closed(&self) -> (r: bool)
        ensures
            r == !self.accepting(),
    {
        !self.open
    }

    /// Offers `value`. While the mailbox is open it replaces any unread
    /// message and the call returns `true`; once closed, nothing changes and
    /// the call returns `false`.
    pub fn post(&mut self, value: T) -> (delivered: bool)
        ensures
            delivered == old(self).accepting(),
            final(self).accepting() == old(self).accepting(),
            delivered ==> final(self).pending() == Some(value),
            !delivered ==> final(self).pending() == old(self).pending(),
    {
        if self.open {
            self.slot = Some(value);
            true
        } else {
            false
        }
    }

    /// Takes the unread message if there is one (also after closing), else
    /// reports whether more may come.
    pub fn take(&mut self) -> (r: Received<T>)
        ensures
            final(self).accepting() == old(self).accepting(),
            final(self).pending() is None,
            old(self).pending() matches Some(v) ==> r == Received::Value(v),
            old(self).pending() is None ==> r == if old(self).accepting() {
                Received::<T>::Empty
            } else {
                Received::<T>::Closed
            },
    {
        match self.slot.take() {
            Some(v) => Received::Value(v),
            None => if self.open {
                Received::Empty
            } else {
                Received::Closed
            },
        }
    }

    /// Closes the mailbox: later posts fail; an unread message can still be
    /// taken.
    pub fn close(&mut self)
        ensures
            !final(self).accepting(),
            final(self).pending() == old(self).pending(),
    {
        self.open = false;
    }
}

} // verus!
