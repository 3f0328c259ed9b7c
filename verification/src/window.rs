//! The mathematical model of the contiguous window, and the laws that hold
//! of it.
//!
//! A window is seen as the stream of every byte that ever entered it, an
//! offset into that stream up to which the bytes were consumed, and the
//! glued block: the bytes that were copied to keep the unread part in one
//! piece.

use vstd::prelude::*;

verus! {

pub struct Window {
    /// Every byte that entered the window, in order: the leftover that it was
    /// seeded with, then each fetched chunk.
    pub stream: Seq<u8>,
    /// How many bytes of `stream` were consumed so far.
    pub consumed: nat,
    /// The glued block; empty while the window reads the latest chunk in place.
    pub glued: Seq<u8>,
}

impl Window {
    /// The logical window: the stream from the consumed offset onward.
    pub open spec fn unread(self) -> Seq<u8> {
        self.stream.skip(self.consumed as int)
    }

    /// The consumed offset lies within the stream, and a glued block is never
    /// kept without need: it ends with the unread bytes, of which there are some.
    pub open spec fn wf(self) -> bool {
        &&& self.consumed <= self.stream.len()
        &&& self.glued.len() > 0 ==> {
            &&& 0 < self.unread().len() <= self.glued.len()
            &&& self.glued.skip(self.glued.len() - self.unread().len()) == self.unread()
        }
    }

    /// A window seeded with the bytes left over from an earlier one.
    pub open spec fn fresh(leftover: Seq<u8>) -> Window {
        Window { stream: leftover, consumed: 0, glued: leftover }
    }

    /// The block that the next fetch has to keep in front of its chunk: the
    /// glued block if there is one, else the unread rest of the latest chunk.
    pub open spec fn carried(self) -> Seq<u8> {
        if self.glued.len() > 0 {
            self.glued
        } else {
            self.unread()
        }
    }

    /// The window after `amount` more bytes were consumed. Reaching the end
    /// of the unread bytes exactly drops the glued block.
    pub open spec fn consume(self, amount: nat) -> Window {
        Window {
            stream: self.stream,
            consumed: self.consumed + amount,
            glued: if amount == self.unread().len() {
                Seq::empty()
            } else {
                self.glued
            },
        }
    }

    /// The window after its unread bytes were glued, with nothing fetched.
    pub open spec fn settle(self) -> Window {
        Window { stream: self.stream, consumed: self.consumed, glued: self.carried() }
    }

    /// The window after `chunk` was fetched. The chunk is copied behind the
    /// carried block if there is one, and read in place if there is none.
    pub open spec fn extend(self, chunk: Seq<u8>) -> Window {
        Window {
            stream: self.stream + chunk,
            consumed: self.consumed,
            glued: if self.carried().len() > 0 {
                self.carried() + chunk
            } else {
                Seq::empty()
            },
        }
    }
}

/// One call on a window, as far as the window's contents go.
pub enum WindowOp {
    /// `amount` bytes were consumed.
    Consume { amount: nat },
    /// A fetch brought `chunk`.
    Fetched { chunk: Seq<u8> },
    /// A fetch failed: the source was exhausted or reported an error.
    FetchFailed,
}

/// Whether `op` may follow on `w`: no more is consumed than is unread, and a
/// fetched chunk has bytes.
pub open spec fn op_allowed(w: Window, op: WindowOp) -> bool {
    match op {
        WindowOp::Consume { amount } => amount <= w.unread().len(),
        WindowOp::Fetched { chunk } => chunk.len() > 0,
        WindowOp::FetchFailed => true,
    }
}

pub open spec fn apply(w: Window, op: WindowOp) -> Window {
    match op {
        WindowOp::Consume { amount } => w.consume(amount),
        WindowOp::Fetched { chunk } => w.extend(chunk),
        WindowOp::FetchFailed => w.settle(),
    }
}

/// The window after the calls `ops`, first to last.
pub open spec fn run(w: Window, ops: Seq<WindowOp>) -> Window
    decreases ops.len(),
{
    if ops.len() == 0 {
        w
    } else {
        apply(run(w, ops.drop_last()), ops.last())
    }
}

/// Whether each of `ops` is allowed on the window that the calls before it
/// leave behind.
pub open spec fn ops_allowed(w: Window, ops: Seq<WindowOp>) -> bool
    decreases ops.len(),
{
    if ops.len() == 0 {
        true
    } else {
        ops_allowed(w, ops.drop_last()) && op_allowed(run(w, ops.drop_last()), ops.last())
    }
}

/// The bytes that the fetches among `ops` brought, in order.
pub open spec fn fetched_bytes(ops: Seq<WindowOp>) -> Seq<u8>
    decreases ops.len(),
{
    if ops.len() == 0 {
        Seq::empty()
    } else {
        match ops.last() {
            WindowOp::Fetched { chunk } => fetched_bytes(ops.drop_last()) + chunk,
            _ => fetched_bytes(ops.drop_last()),
        }
    }
}

/// The number of bytes that `ops` consume in all.
pub open spec fn consumed_bytes(ops: Seq<WindowOp>) -> nat
    decreases ops.len(),
{
    if ops.len() == 0 {
        0
    } else {
        match ops.last() {
            WindowOp::Consume { amount } => consumed_bytes(ops.drop_last()) + amount,
            _ => consumed_bytes(ops.drop_last()),
        }
    }
}

/// Each allowed call keeps a well-formed window well-formed.
pub proof fn lemma_apply_keeps_wf(w: Window, op: WindowOp)
    requires
        w.wf(),
        op_allowed(w, op),
    ensures
        apply(w, op).wf(),
{
    let after = apply(w, op);
    match op {
        WindowOp::Consume { amount } => {
            assert(after.unread() =~= w.unread().skip(amount as int));
            if after.glued.len() > 0 {
                let cut = w.glued.len() - w.unread().len();
                assert(after.glued.skip(after.glued.len() - after.unread().len()) =~= w.glued.skip(
                    cut,
                ).skip(amount as int));
            }
        },
        WindowOp::Fetched { chunk } => {
            assert(after.unread() =~= w.unread() + chunk);
            if after.glued.len() > 0 {
                let cut = w.carried().len() - w.unread().len();
                assert(w.carried().skip(cut) == w.unread()) by {
                    if w.glued.len() == 0 {
                        assert(w.unread().skip(0) =~= w.unread());
                    }
                }
                assert(after.glued.skip(after.glued.len() - after.unread().len()) =~= w.carried().skip(
                    cut,
                ) + chunk);
            }
        },
        WindowOp::FetchFailed => {
            if w.glued.len() == 0 {
                assert(w.unread().skip(0) =~= w.unread());
            }
        },
    }
}

/// Contiguity: after any allowed sequence of consumes and fetches on a window
/// seeded with `leftover`, the logical window is the stream of the leftover
/// and all fetched chunks, from the total of consumed bytes onward; that total
/// lies within the stream, and the window is well-formed.
pub proof fn lemma_contiguity(leftover: Seq<u8>, ops: Seq<WindowOp>)
    requires
        ops_allowed(Window::fresh(leftover), ops),
    ensures
        run(Window::fresh(leftover), ops).wf(),
        run(Window::fresh(leftover), ops).stream == leftover + fetched_bytes(ops),
        run(Window::fresh(leftover), ops).consumed == consumed_bytes(ops),
        consumed_bytes(ops) <= (leftover + fetched_bytes(ops)).len(),
        run(Window::fresh(leftover), ops).unread() == (leftover + fetched_bytes(ops)).skip(
            consumed_bytes(ops) as int,
        ),
    decreases ops.len(),
{
    let start = Window::fresh(leftover);
    if ops.len() == 0 {
        assert(leftover + Seq::<u8>::empty() =~= leftover);
        assert(start.unread() =~= leftover);
        assert(start.glued.skip(0) =~= leftover);
    } else {
        let before = ops.drop_last();
        lemma_contiguity(leftover, before);
        lemma_apply_keeps_wf(run(start, before), ops.last());
        match ops.last() {
            WindowOp::Fetched { chunk } => {
                assert((leftover + fetched_bytes(before)) + chunk =~= leftover + (fetched_bytes(
                    before,
                ) + chunk));
            },
            _ => {},
        }
    }
}

/// What a call leaves unread depends on what was unread before it, and on
/// nothing else.
pub proof fn lemma_apply_unread(w: Window, op: WindowOp)
    requires
        w.consumed <= w.stream.len(),
        op_allowed(w, op),
    ensures
        apply(w, op).unread() == match op {
            WindowOp::Consume { amount } => w.unread().skip(amount as int),
            WindowOp::Fetched { chunk } => w.unread() + chunk,
            WindowOp::FetchFailed => w.unread(),
        },
{
    match op {
        WindowOp::Consume { amount } => {
            assert(apply(w, op).unread() =~= w.unread().skip(amount as int));
        },
        WindowOp::Fetched { chunk } => {
            assert(apply(w, op).unread() =~= w.unread() + chunk);
        },
        WindowOp::FetchFailed => {},
    }
}

/// Resumption: ending a window after the calls `first` and seeding a new
/// window with what it left unread, for the calls `second`, shows the same
/// unread bytes as one window that takes all the calls in a row; and the
/// calls that are allowed one way are allowed the other way.
pub proof fn lemma_resume(leftover: Seq<u8>, first: Seq<WindowOp>, second: Seq<WindowOp>)
    requires
        ops_allowed(Window::fresh(leftover), first),
        ops_allowed(Window::fresh(run(Window::fresh(leftover), first).unread()), second),
    ensures
        ops_allowed(Window::fresh(leftover), first + second),
        run(Window::fresh(run(Window::fresh(leftover), first).unread()), second).unread() == run(
            Window::fresh(leftover),
            first + second,
        ).unread(),
    decreases second.len(),
{
    let start = Window::fresh(leftover);
    let carried = run(start, first).unread();
    let resumed = Window::fresh(carried);
    if second.len() == 0 {
        assert(first + second =~= first);
        assert(resumed.unread() =~= carried);
    } else {
        let before = second.drop_last();
        let op = second.last();
        lemma_resume(leftover, first, before);
        assert((first + second).drop_last() =~= first + before);
        assert((first + second).last() == op);
        lemma_contiguity(carried, before);
        lemma_contiguity(leftover, first + before);
        lemma_apply_unread(run(resumed, before), op);
        lemma_apply_unread(run(start, first + before), op);
    }
}

/// No growth: consuming exactly what is unread leaves neither unread bytes nor
/// a glued block, so the next fetch is read in place and nothing is carried
/// over to a later window.
pub proof fn lemma_full_consume_clears(w: Window, chunk: Seq<u8>)
    requires
        w.wf(),
    ensures
        w.consume(w.unread().len()).unread() == Seq::<u8>::empty(),
        w.consume(w.unread().len()).glued == Seq::<u8>::empty(),
        w.consume(w.unread().len()).settle().glued == Seq::<u8>::empty(),
        w.consume(w.unread().len()).extend(chunk).glued == Seq::<u8>::empty(),
        w.consume(w.unread().len()).extend(chunk).unread() == chunk,
{
    let done = w.consume(w.unread().len());
    assert(done.unread() =~= Seq::<u8>::empty());
    assert(done.extend(chunk).unread() =~= chunk);
}

} // verus!
