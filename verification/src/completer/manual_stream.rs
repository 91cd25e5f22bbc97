//! A stream whose items a completer pushes by hand.

use crate::completer::waker::{clone_waker, wake_waiter};
use std::collections::VecDeque;
use std::marker::PhantomData;
use vstd::prelude::*;

verus! {

/// The queue of a stream and the task that waits for its next entry. An entry
/// is an item, or the mark that ends the stream.
pub struct ManualStreamState<T> {
    queue: VecDeque<Option<T>>,
    waker: Option<std::task::Waker>,
}

impl<T> ManualStreamState<T> {
    /// The entries that were pushed and not yet taken, oldest first.
    pub closed spec fn entries(&self) -> Seq<Option<T>> {
        self.queue@
    }

    /// Whether a task waits for the next entry.
    pub closed spec fn has_waiter(&self) -> bool {
        self.waker is Some
    }

    /// An empty queue that nobody waits for.
    pub fn new() -> (state: Self)
        ensures
            state.entries() == Seq::<Option<T>>::empty(),
            !state.has_waiter(),
    {
        ManualStreamState { queue: VecDeque::new(), waker: None }
    }

    /// Appends `item` and wakes the task that waits.
    pub fn push(&mut self, item: T)
        ensures
            final(self).entries() == old(self).entries().push(Some(item)),
            !final(self).has_waiter(),
    {
        self.queue.push_back(Some(item));
        wake_waiter(self.waker.take());
    }

    /// Appends the end mark and wakes the task that waits.
    pub fn close(&mut self)
        ensures
            final(self).entries() == old(self).entries().push(None),
            !final(self).has_waiter(),
    {
        self.queue.push_back(None);
        wake_waiter(self.waker.take());
    }

    /// Takes the oldest entry. Where there is none, the task behind `waker` is
    /// noted as the waiter.
    pub fn take(&mut self, waker: &std::task::Waker) -> (entry: Option<Option<T>>)
        ensures
            old(self).entries().len() > 0 ==> entry == Some(old(self).entries()[0])
                && final(self).entries() == old(self).entries().drop_first()
                && final(self).has_waiter() == old(self).has_waiter(),
            old(self).entries().len() == 0 ==> entry is None && final(self).entries()
                == old(self).entries() && final(self).has_waiter(),
    {
        match self.queue.pop_front() {
            Some(entry) => {
                assert(self.queue@ =~= old(self).queue@.drop_first());
                Some(entry)
            },
            None => {
                self.waker = Some(clone_waker(waker));
                None
            },
        }
    }
}

/// What one poll of a stream gives.
#[derive(Debug, PartialEq)]
pub enum StreamProgress<T> {
    /// The next item.
    Item(T),
    /// The end of the stream.
    End,
    /// Nothing yet; the task will be woken.
    Pending,
}

/// The consuming end of a stream.
pub struct ManualStream<T> {
    state: ManualStreamState<T>,
}

/// The producing end of a stream: the right to push items and to close it.
pub struct ManualStreamCompleter<T> {
    marker: PhantomData<T>,
}

impl<T> ManualStream<T> {
    /// The entries that were pushed and not yet taken, oldest first.
    pub closed spec fn entries(&self) -> Seq<Option<T>> {
        self.state.entries()
    }

    /// Whether a task waits for the next entry.
    pub closed spec fn has_waiter(&self) -> bool {
        self.state.has_waiter()
    }

    /// An empty stream and the right to fill it.
    pub fn create() -> (pair: (Self, ManualStreamCompleter<T>))
        ensures
            pair.0.entries() == Seq::<Option<T>>::empty(),
            !pair.0.has_waiter(),
    {
        (ManualStream { state: ManualStreamState::new() }, ManualStreamCompleter { marker: PhantomData })
    }

    /// Polls the stream for the task behind `waker`: the oldest entry, which
    /// is an item or the end of the stream, or nothing yet.
    pub fn poll_next(&mut self, waker: &std::task::Waker) -> (progress: StreamProgress<T>)
        ensures
            old(self).entries().len() == 0 ==> progress is Pending && final(self).entries()
                == old(self).entries() && final(self).has_waiter(),
            old(self).entries().len() > 0 ==> final(self).entries()
                == old(self).entries().drop_first() && progress == (match old(self).entries()[0] {
                Some(item) => StreamProgress::Item(item),
                None => StreamProgress::End,
            }),
    {
        match self.state.take(waker) {
            Some(Some(item)) => StreamProgress::Item(item),
            Some(None) => StreamProgress::End,
            None => StreamProgress::Pending,
        }
    }
}

impl<T> ManualStreamCompleter<T> {
    /// Appends `item` to `stream` and wakes the task that waits for it.
    pub fn push(&self, stream: &mut ManualStream<T>, item: T)
        ensures
            final(stream).entries() == old(stream).entries().push(Some(item)),
            !final(stream).has_waiter(),
    {
        stream.state.push(item);
    }

    /// Ends `stream` and wakes the task that waits for it.
    pub fn close(&self, stream: &mut ManualStream<T>)
        ensures
            final(stream).entries() == old(stream).entries().push(None),
            !final(stream).has_waiter(),
    {
        stream.state.close();
    }
}

} // verus!
