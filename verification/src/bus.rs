//! Bounded broadcast bus: one producer, many independent subscribers.
//!
//! The bus keeps the last `capacity` published pages in a ring, together with
//! a running count of everything ever published. Each subscriber is a cursor
//! into that publish history: it sees every page published after it
//! subscribed, in publish order. A subscriber that falls more than `capacity`
//! pages behind loses its oldest unread pages — one `Lagged` report — and
//! resumes with later ones; it is never disconnected for lagging. Publishing
//! never waits on any subscriber: `publish` has no precondition about them.

use vstd::prelude::*;
use vstd::slice::slice_to_vec;

verus! {

/// The bytes of each page in a batch, in order.
pub open spec fn pages_view(pages: Seq<Vec<u8>>) -> Seq<Seq<u8>> {
    pages.map_values(|p: Vec<u8>| p@)
}

/// A subscription: a cursor into the bus's publish history. Pages before the
/// cursor have been consumed (or lost to lag); pages at or after it are owed.
#[derive(Clone, Copy, Debug)]
pub struct Subscriber {
    pub cursor: usize,
}

/// What one poll of the bus yields.
#[derive(Debug)]
pub enum PollOutcome {
    /// The next unread page, in publish order.
    Page(Vec<u8>),
    /// The subscriber fell behind; this many pages were lost, and the cursor
    /// now stands at the oldest page still buffered.
    Lagged(usize),
    /// Nothing published yet beyond the cursor; the bus is still open.
    Empty,
    /// Nothing left and the bus is closed: end of stream.
    Closed,
}

/// The abstract result of one poll: what comes back and where the cursor
/// moves. Mirrors [`PollOutcome`] with the new cursor made explicit.
pub enum PollStep {
    Page(Seq<u8>, int),
    Lagged(int, int),
    Empty,
    Closed,
}

/// The bounded fanout channel. `history` is the full publish history (ghost);
/// `buffer` holds its last `min(published, capacity)` pages.
pub struct BroadcastBus {
    pub buffer: Vec<Vec<u8>>,
    pub capacity: usize,
    pub published: usize,
    pub closed: bool,
    pub history: Ghost<Seq<Seq<u8>>>,
}

impl BroadcastBus {
    /// Sequence number of the oldest page still buffered.
    pub open spec fn oldest(self) -> int {
        self.history@.len() - self.buffer@.len()
    }

    /// The ring is a faithful window onto the tail of the publish history.
    pub open spec fn wf(self) -> bool {
        &&& 0 < self.capacity
        &&& self.published == self.history@.len()
        &&& self.buffer@.len() == if self.history@.len() <= self.capacity {
            self.history@.len() as int
        } else {
            self.capacity as int
        }
        &&& forall|i: int|
            0 <= i < self.buffer@.len() ==> #[trigger] self.buffer@[i]@ == self.history@[self.oldest()
                + i]
    }

    /// What a poll at `cursor` yields: a lag report jumping to the oldest
    /// buffered page, the page at the cursor, or — past the end — whether
    /// the bus is still open.
    pub open spec fn spec_poll(self, cursor: int) -> PollStep {
        if cursor < self.oldest() {
            PollStep::Lagged(self.oldest() - cursor, self.oldest())
        } else if cursor < self.history@.len() {
            PollStep::Page(self.history@[cursor], cursor + 1)
        } else if self.closed {
            PollStep::Closed
        } else {
            PollStep::Empty
        }
    }

    /// The pages gathered by `n` successive polls starting at `cursor`.
    pub open spec fn spec_poll_n(self, cursor: int, n: nat) -> Seq<Seq<u8>>
        decreases n,
    {
        if n == 0 {
            Seq::empty()
        } else {
            match self.spec_poll(cursor) {
                PollStep::Page(p, c2) => seq![p] + self.spec_poll_n(c2, (n - 1) as nat),
                PollStep::Lagged(_, c2) => self.spec_poll_n(c2, (n - 1) as nat),
                _ => Seq::empty(),
            }
        }
    }

    /// An open, empty bus of the given capacity.
    pub fn new(capacity: usize) -> (r: BroadcastBus)
        requires
            capacity > 0,
        ensures
            r.wf(),
            r.history@ == Seq::<Seq<u8>>::empty(),
            r.capacity == capacity,
            !r.closed,
    {
        BroadcastBus {
            buffer: Vec::new(),
            capacity,
            published: 0,
            closed: false,
            history: Ghost(Seq::empty()),
        }
    }

    /// Publish one page: it joins the history, and the oldest buffered page
    /// makes room once the ring is full. No subscriber is consulted — the
    /// producer never blocks on a slow or absent consumer.
    pub fn publish(&mut self, page: Vec<u8>)
        requires
            old(self).wf(),
            old(self).published < usize::MAX,
        ensures
            final(self).wf(),
            final(self).history@ == old(self).history@.push(page@),
            final(self).capacity == old(self).capacity,
            final(self).closed == old(self).closed,
    {
        let ghost p = page@;
        if self.buffer.len() == self.capacity {
            self.buffer.remove(0);
        }
        self.buffer.push(page);
        self.published = self.published + 1;
        self.history = Ghost(self.history@.push(p));
    }

    /// Close the bus: every subscriber that drains the remaining pages then
    /// sees end-of-stream.
    pub fn close(&mut self)
        ensures
            final(self).closed,
            final(self).buffer == old(self).buffer,
            final(self).capacity == old(self).capacity,
            final(self).published == old(self).published,
            final(self).history == old(self).history,
    {
        self.closed = true;
    }

    /// Subscribe: the cursor starts at the end of the history, so the
    /// subscriber sees exactly the pages published after this call — no
    /// pre-subscription catch-up.
    pub fn subscribe(&self) -> (s: Subscriber)
        requires
            self.wf(),
        ensures
            s.cursor == self.history@.len(),
    {
        Subscriber { cursor: self.published }
    }

    /// Poll once on behalf of a subscriber; the result and the new cursor are
    /// exactly what [`Self::spec_poll`] says for the old cursor.
    pub fn poll(&self, sub: &mut Subscriber) -> (out: PollOutcome)
        requires
            self.wf(),
            old(sub).cursor <= self.history@.len(),
        ensures
            final(sub).cursor <= self.history@.len(),
            match out {
                PollOutcome::Page(p) => self.spec_poll(old(sub).cursor as int) == PollStep::Page(
                    p@,
                    final(sub).cursor as int,
                ),
                PollOutcome::Lagged(n) => self.spec_poll(old(sub).cursor as int)
                    == PollStep::Lagged(n as int, final(sub).cursor as int),
                PollOutcome::Empty => self.spec_poll(old(sub).cursor as int) == PollStep::Empty
                    && *final(sub) == *old(sub),
                PollOutcome::Closed => self.spec_poll(old(sub).cursor as int) == PollStep::Closed
                    && *final(sub) == *old(sub),
            },
    {
        let oldest = self.published - self.buffer.len();
        if sub.cursor < oldest {
            let missed = oldest - sub.cursor;
            sub.cursor = oldest;
            PollOutcome::Lagged(missed)
        } else if sub.cursor < self.published {
            let idx = sub.cursor - oldest;
            let page = clone_page(&self.buffer[idx]);
            sub.cursor = sub.cursor + 1;
            PollOutcome::Page(page)
        } else if self.closed {
            PollOutcome::Closed
        } else {
            PollOutcome::Empty
        }
    }

    /// Poll until the bus has nothing more for this subscriber, collecting
    /// the pages in order: everything from the cursor — or from the oldest
    /// buffered page, if the subscriber had fallen behind — to the end of
    /// the history.
    pub fn drain_available(&self, sub: &mut Subscriber) -> (out: Vec<Vec<u8>>)
        requires
            self.wf(),
            old(sub).cursor <= self.history@.len(),
        ensures
            final(sub).cursor == self.history@.len(),
            pages_view(out@) == self.history@.subrange(
                if old(sub).cursor as int >= self.oldest() {
                    old(sub).cursor as int
                } else {
                    self.oldest()
                },
                self.history@.len() as int,
            ),
    {
        let ghost from = if old(sub).cursor as int >= self.oldest() {
            old(sub).cursor as int
        } else {
            self.oldest()
        };
        let mut out: Vec<Vec<u8>> = Vec::new();
        loop
            invariant_except_break
                self.wf(),
                sub.cursor <= self.history@.len(),
                old(sub).cursor <= self.history@.len(),
                from == if old(sub).cursor as int >= self.oldest() {
                    old(sub).cursor as int
                } else {
                    self.oldest()
                },
                self.oldest() <= from <= self.history@.len(),
                (sub.cursor == old(sub).cursor && sub.cursor <= from && out@.len() == 0) || (from
                    <= sub.cursor && pages_view(out@) == self.history@.subrange(
                    from,
                    sub.cursor as int,
                )),
            ensures
                sub.cursor == self.history@.len(),
                pages_view(out@) == self.history@.subrange(from, self.history@.len() as int),
            decreases self.history@.len() - sub.cursor,
        {
            let ghost prev = sub.cursor as int;
            let ghost seen = out@;
            match self.poll(sub) {
                PollOutcome::Page(p) => {
                    proof {
                        assert(self.oldest() <= prev);
                        assert(from <= prev);
                        assert(pages_view(seen) =~= self.history@.subrange(from, prev));
                        assert(p@ == self.history@[prev]);
                    }
                    out.push(p);
                    proof {
                        assert(pages_view(out@) =~= self.history@.subrange(
                            from,
                            sub.cursor as int,
                        ));
                    }
                },
                PollOutcome::Lagged(_) => {
                    proof {
                        assert(prev < self.oldest());
                        assert(sub.cursor == self.oldest() == from);
                        assert(pages_view(out@) =~= self.history@.subrange(
                            from,
                            sub.cursor as int,
                        ));
                    }
                },
                PollOutcome::Empty => {
                    proof {
                        assert(sub.cursor == self.history@.len());
                        assert(pages_view(out@) =~= self.history@.subrange(
                            from,
                            self.history@.len() as int,
                        ));
                    }
                    break ;
                },
                PollOutcome::Closed => {
                    proof {
                        assert(sub.cursor == self.history@.len());
                        assert(pages_view(out@) =~= self.history@.subrange(
                            from,
                            self.history@.len() as int,
                        ));
                    }
                    break ;
                },
            }
        }
        out
    }
}

/// A byte-exact copy of one page.
pub fn clone_page(page: &Vec<u8>) -> (r: Vec<u8>)
    ensures
        r@ == page@,
{
    slice_to_vec(page.as_slice())
}

/// A subscriber that keeps pace receives exactly the pages published after
/// its cursor, in publish order: `n` polls from `cursor` yield precisely
/// `history[cursor .. cursor + n]`.
pub proof fn lemma_in_order_delivery(bus: BroadcastBus, cursor: int, n: nat)
    requires
        bus.wf(),
        bus.oldest() <= cursor,
        cursor + n == bus.history@.len(),
    ensures
        bus.spec_poll_n(cursor, n) == bus.history@.subrange(cursor, cursor + n),
    decreases n,
{
    if n == 0 {
        assert(bus.spec_poll_n(cursor, n) =~= bus.history@.subrange(cursor, cursor + n));
    } else {
        lemma_in_order_delivery(bus, cursor + 1, (n - 1) as nat);
        assert(bus.spec_poll_n(cursor, n) =~= bus.history@.subrange(cursor, cursor + n));
    }
}

/// A subscriber idle for longer than the bus capacity is not disconnected
/// and does not hold the producer up: one poll reports how many pages were
/// lost and moves the cursor to the oldest buffered page, and the next poll
/// delivers that page.
pub proof fn lemma_lagged_subscriber_resumes(bus: BroadcastBus, cursor: int)
    requires
        bus.wf(),
        0 <= cursor < bus.oldest(),
    ensures
        bus.spec_poll(cursor) == PollStep::Lagged(bus.oldest() - cursor, bus.oldest()),
        bus.oldest() < bus.history@.len(),
        bus.spec_poll(bus.oldest()) == PollStep::Page(
            bus.history@[bus.oldest()],
            bus.oldest() + 1,
        ),
{
}

} // verus!
