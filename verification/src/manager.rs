//! The queue between native callbacks and the application.
//!
//! Every native object that a manager creates hands its events to the same
//! queue, so that one wake-up of the host loop serves all of them. The queue
//! is first in, first out: what an object reports in some order, the
//! application receives in that order.

use crate::menu_bar::{MenuBarEvent, MenuBarId};
use crate::popup::{PopupEvent, PopupId};
use crate::tray::TrayEvent;
use crate::tray_id::TrayId;
use std::collections::VecDeque;
use vstd::prelude::*;

verus! {

/// Why [`EventQueue::try_recv`] has nothing to give.
#[derive(Copy, Clone, Debug, PartialEq, Eq, Hash, Structural)]
pub enum TryRecvError {
    /// Nothing is queued now, but a writer exists that may still send.
    Empty,
    /// Nothing is queued and no writer is left: nothing will ever come.
    Disconnected,
}

/// The answer of [`EventQueue::recv`] when nothing will ever come: nothing
/// is queued and no writer is left.
#[derive(Copy, Clone, Debug, PartialEq, Eq, Hash, Structural)]
pub struct RecvError;

/// One step of a blocking receive.
#[derive(Debug, PartialEq, Eq)]
pub enum Recv<M> {
    /// The next message.
    Ready(M),
    /// Nothing is queued yet. The caller waits for the next send and asks
    /// again.
    Wait,
    /// Nothing is queued and no writer is left.
    Disconnected(RecvError),
}

/// The mathematical state of an [`EventQueue`].
pub struct QueueModel<M> {
    /// What has been sent and not yet received, oldest first.
    pub pending: Seq<M>,
    /// How many writers exist.
    pub writers: nat,
    /// The host loop has been signalled, once or more often, and has not
    /// received since: one wake-up of the loop is due.
    pub wake_pending: bool,
}

impl<M> QueueModel<M> {
    /// The queue after `message` was sent. Every send signals the host loop.
    pub open spec fn send(self, message: M) -> Self {
        QueueModel { pending: self.pending.push(message), wake_pending: true, ..self }
    }

    /// The queue after all of `messages` were sent, in order.
    pub open spec fn send_all(self, messages: Seq<M>) -> Self
        decreases messages.len(),
    {
        if messages.len() == 0 {
            self
        } else {
            self.send_all(messages.drop_last()).send(messages.last())
        }
    }

    /// What a receive without blocking answers.
    pub open spec fn try_recv(self) -> Result<M, TryRecvError> {
        if self.pending.len() > 0 {
            Ok(self.pending[0])
        } else if self.writers == 0 {
            Err(TryRecvError::Disconnected)
        } else {
            Err(TryRecvError::Empty)
        }
    }

    /// The queue after a receive. Whoever receives is awake.
    pub open spec fn after_recv(self) -> Self {
        if self.pending.len() > 0 {
            QueueModel { pending: self.pending.drop_first(), wake_pending: false, ..self }
        } else {
            QueueModel { wake_pending: false, ..self }
        }
    }

    /// The messages that `n` receives in a row hand out, for `n` up to the
    /// number of pending messages.
    pub open spec fn recv_n(self, n: nat) -> Seq<M>
        decreases n,
    {
        if n == 0 || self.pending.len() == 0 {
            Seq::empty()
        } else {
            seq![self.pending[0]] + self.after_recv().recv_n((n - 1) as nat)
        }
    }

    /// Sending appends, in order.
    pub proof fn lemma_send_all(self, messages: Seq<M>)
        ensures
            self.send_all(messages).pending == self.pending + messages,
            self.send_all(messages).writers == self.writers,
            self.send_all(messages).wake_pending == (self.wake_pending || messages.len() > 0),
        decreases messages.len(),
    {
        if messages.len() > 0 {
            self.lemma_send_all(messages.drop_last());
            assert(self.pending + messages =~= (self.pending + messages.drop_last()).push(
                messages.last(),
            ));
        }
    }

    /// Receiving hands out the pending messages from the oldest on.
    pub proof fn lemma_recv_n(self, n: nat)
        requires
            n <= self.pending.len(),
        ensures
            self.recv_n(n) == self.pending.take(n as int),
        decreases n,
    {
        if n > 0 {
            self.after_recv().lemma_recv_n((n - 1) as nat);
        }
    }

    /// First in, first out: what is sent to an empty queue, by whatever
    /// objects and however interleaved, is received in the order in which it
    /// was sent, and then the queue is empty again.
    pub proof fn lemma_fifo(self, messages: Seq<M>)
        requires
            self.pending.len() == 0,
        ensures
            self.send_all(messages).recv_n(messages.len()) == messages,
            self.send_all(messages).pending.len() == messages.len(),
    {
        self.lemma_send_all(messages);
        self.send_all(messages).lemma_recv_n(messages.len());
    }

    /// Wake-ups collapse. Every send signals the host loop, but however many
    /// messages are sent before the loop receives, what is due is one
    /// wake-up; the first receive of the loop takes it.
    pub proof fn lemma_wakes_collapse(self, messages: Seq<M>)
        requires
            messages.len() > 0,
        ensures
            self.send_all(messages).wake_pending,
            !self.send_all(messages).after_recv().wake_pending,
    {
        self.lemma_send_all(messages);
    }

    /// The order of each object is kept. Of the messages sent to an empty
    /// queue, those of one source, picked out by `from_source`, are received
    /// in the order in which that source sent them, whatever other sources
    /// sent in between.
    pub proof fn lemma_order_per_source(self, messages: Seq<M>, from_source: spec_fn(M) -> bool)
        requires
            self.pending.len() == 0,
        ensures
            self.send_all(messages).recv_n(messages.len()).filter(from_source) == messages.filter(
                from_source,
            ),
    {
        self.lemma_fifo(messages);
    }
}

/// A first-in, first-out queue of messages with a count of its writers.
#[derive(Debug)]
pub struct EventQueue<M> {
    pending: VecDeque<M>,
    writers: usize,
    wake_pending: bool,
}

impl<M> View for EventQueue<M> {
    type V = QueueModel<M>;

    closed spec fn view(&self) -> QueueModel<M> {
        QueueModel {
            pending: self.pending@,
            writers: self.writers as nat,
            wake_pending: self.wake_pending,
        }
    }
}

impl<M> EventQueue<M> {
    /// An empty queue with one writer, the one that the owner of the queue
    /// keeps for the objects that it will create.
    pub fn new() -> (queue: Self)
        ensures
            queue@.pending == Seq::<M>::empty(),
            queue@.writers == 1,
            !queue@.wake_pending,
    {
        EventQueue { pending: VecDeque::new(), writers: 1, wake_pending: false }
    }

    /// How many messages wait to be received.
    pub fn len(&self) -> (n: usize)
        ensures
            n == self@.pending.len(),
    {
        self.pending.len()
    }

    /// How many writers exist.
    pub fn writers(&self) -> (n: usize)
        ensures
            n == self@.writers,
    {
        self.writers
    }

    /// One more writer: an object was given a way to send.
    pub fn add_writer(&mut self)
        requires
            old(self)@.writers < usize::MAX,
        ensures
            final(self)@ == (QueueModel { writers: old(self)@.writers + 1, ..old(self)@ }),
    {
        self.writers = self.writers + 1;
    }

    /// One writer less: an object that could send is gone. Without writers
    /// nothing changes.
    pub fn remove_writer(&mut self)
        ensures
            final(self)@ == (QueueModel {
                writers: if old(self)@.writers > 0 {
                    (old(self)@.writers - 1) as nat
                } else {
                    0
                },
                ..old(self)@
            }),
    {
        if self.writers > 0 {
            self.writers = self.writers - 1;
        }
    }

    /// Whether a wake-up of the host loop is due: the loop has been signalled
    /// and has not received since.
    pub fn wake_pending(&self) -> (pending: bool)
        ensures
            pending == self@.wake_pending,
    {
        self.wake_pending
    }

    /// Queues `message` behind what is pending. The result says that the
    /// caller has to signal the host loop, which it has after every send; the
    /// loop merges the signals that reach it before it runs into one wake-up.
    pub fn send(&mut self, message: M) -> (wake: bool)
        ensures
            final(self)@ == old(self)@.send(message),
            wake,
    {
        self.pending.push_back(message);
        self.wake_pending = true;
        true
    }

    /// The oldest pending message, without blocking. An empty queue answers
    /// `Empty` while a writer exists and `Disconnected` when none is left.
    pub fn try_recv(&mut self) -> (r: Result<M, TryRecvError>)
        ensures
            r == old(self)@.try_recv(),
            final(self)@ == old(self)@.after_recv(),
    {
        self.wake_pending = false;
        match self.pending.pop_front() {
            Some(message) => Ok(message),
            None => {
                if self.writers == 0 {
                    Err(TryRecvError::Disconnected)
                } else {
                    Err(TryRecvError::Empty)
                }
            },
        }
    }

    /// One step of a blocking receive: the oldest pending message if there is
    /// one; else `Wait` while a writer exists, after which the caller sleeps
    /// until the next send and asks again; else `Disconnected`.
    pub fn recv(&mut self) -> (r: Recv<M>)
        ensures
            final(self)@ == old(self)@.after_recv(),
            r == match old(self)@.try_recv() {
                Ok(message) => Recv::Ready(message),
                Err(TryRecvError::Empty) => Recv::Wait,
                Err(TryRecvError::Disconnected) => Recv::Disconnected(RecvError),
            },
    {
        match self.try_recv() {
            Ok(message) => Recv::Ready(message),
            Err(TryRecvError::Empty) => Recv::Wait,
            Err(TryRecvError::Disconnected) => Recv::Disconnected(RecvError),
        }
    }
}

/// The queue of one kind of native object: the events of all objects of that
/// kind that an application has created, each with the identifier of its
/// source, in the order of their arrival.
#[derive(Debug)]
pub struct Manager<I, E> {
    queue: EventQueue<(I, E)>,
}

/// The events of all tray icons of one application.
pub type TrayManager<T = ()> = Manager<TrayId, TrayEvent<T>>;

/// The events of all popup windows of one application.
pub type PopupManager<T = ()> = Manager<PopupId, PopupEvent<T>>;

/// The events of all menu bars of one application.
pub type MenuBarManager<T = ()> = Manager<MenuBarId, MenuBarEvent<T>>;

impl<I, E> View for Manager<I, E> {
    type V = QueueModel<(I, E)>;

    closed spec fn view(&self) -> QueueModel<(I, E)> {
        self.queue@
    }
}

impl<I, E> Manager<I, E> {
    /// A manager with an empty queue and its own writer.
    pub fn new() -> (manager: Self)
        ensures
            manager@.pending == Seq::<(I, E)>::empty(),
            manager@.writers == 1,
            !manager@.wake_pending,
    {
        Manager { queue: EventQueue::new() }
    }

    /// How many events wait to be received.
    pub fn len(&self) -> (n: usize)
        ensures
            n == self@.pending.len(),
    {
        self.queue.len()
    }

    /// How many writers exist.
    pub fn writers(&self) -> (n: usize)
        ensures
            n == self@.writers,
    {
        self.queue.writers()
    }

    /// One more writer: an object was created and given a way to send.
    pub fn add_writer(&mut self)
        requires
            old(self)@.writers < usize::MAX,
        ensures
            final(self)@ == (QueueModel { writers: old(self)@.writers + 1, ..old(self)@ }),
    {
        self.queue.add_writer();
    }

    /// One writer less: an object is gone. Without writers nothing changes.
    pub fn remove_writer(&mut self)
        ensures
            final(self)@ == (QueueModel {
                writers: if old(self)@.writers > 0 {
                    (old(self)@.writers - 1) as nat
                } else {
                    0
                },
                ..old(self)@
            }),
    {
        self.queue.remove_writer();
    }

    /// Whether a wake-up of the host loop is due.
    pub fn wake_pending(&self) -> (pending: bool)
        ensures
            pending == self@.wake_pending,
    {
        self.queue.wake_pending()
    }

    /// What every object of the manager calls with its events: queues the
    /// event of the object `id`. The result says that the caller has to
    /// signal the host loop, which it has after every send.
    pub fn send(&mut self, id: I, event: E) -> (wake: bool)
        ensures
            final(self)@ == old(self)@.send((id, event)),
            wake,
    {
        self.queue.send((id, event))
    }

    /// One step of a blocking receive; see [`EventQueue::recv`].
    pub fn recv(&mut self) -> (r: Recv<(I, E)>)
        ensures
            final(self)@ == old(self)@.after_recv(),
            r == match old(self)@.try_recv() {
                Ok(message) => Recv::Ready(message),
                Err(TryRecvError::Empty) => Recv::Wait,
                Err(TryRecvError::Disconnected) => Recv::Disconnected(RecvError),
            },
    {
        self.queue.recv()
    }

    /// The oldest pending event and the object that it came from, without
    /// blocking.
    pub fn try_recv(&mut self) -> (r: Result<(I, E), TryRecvError>)
        ensures
            r == old(self)@.try_recv(),
            final(self)@ == old(self)@.after_recv(),
    {
        self.queue.try_recv()
    }
}

/// Hands out the integers behind object identifiers.
///
/// The integers only grow. An identifier is therefore never given to a
/// second object, and an event that is still queued for a destroyed object
/// cannot be taken for the event of a later one.
#[derive(Debug)]
pub struct IdAllocator {
    next: usize,
}

impl View for IdAllocator {
    type V = usize;

    /// The integer that is handed out next.
    closed spec fn view(&self) -> usize {
        self.next
    }
}

impl IdAllocator {
    #[verifier::type_invariant]
    spec fn inv(&self) -> bool {
        self.next >= 1
    }

    /// The integer that the allocation after `n` others hands out, counted
    /// from an allocator that hands out `first` next.
    pub open spec fn nth_id(first: usize, n: nat) -> int {
        first + n
    }

    /// No integer is handed out twice: of two allocations the later gives the
    /// larger integer. An object that is created after another was destroyed
    /// therefore never gets its identifier.
    pub proof fn lemma_ids_never_repeat(first: usize, earlier: nat, later: nat)
        requires
            earlier < later,
        ensures
            Self::nth_id(first, earlier) < Self::nth_id(first, later),
            Self::nth_id(first, 0) == first,
            Self::nth_id(first, later) == Self::nth_id(first, (later - 1) as nat) + 1,
    {
    }

    /// An allocator whose first integer is 1.
    pub fn new() -> (allocator: Self)
        ensures
            allocator@ == 1,
    {
        IdAllocator { next: 1 }
    }

    /// The next integer, larger than every one handed out before; nothing
    /// once the integers are used up. Integers start at 1: 0 is never
    /// handed out.
    pub fn allocate(&mut self) -> (id: Option<usize>)
        ensures
            old(self)@ >= 1,
            old(self)@ < usize::MAX ==> id == Some(old(self)@) && final(self)@ == Self::nth_id(
                old(self)@,
                1,
            ),
            old(self)@ == usize::MAX ==> id is None && final(self)@ == old(self)@,
            id matches Some(given) ==> given >= 1,
    {
        proof {
            use_type_invariant(&*self);
        }
        if self.next == usize::MAX {
            None
        } else {
            let id: usize = self.next;
            *self = IdAllocator { next: id + 1 };
            Some(id)
        }
    }
}

} // verus!
