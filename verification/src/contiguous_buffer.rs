//! A byte window that stays in one piece across chunk boundaries.
//!
//! The window reads the source's latest chunk in place for as long as it
//! can. Only when unread bytes are still around at the moment the next chunk
//! is fetched are they copied into a block of the window's own, and later
//! chunks are copied behind them, until that block has been read to its end.

use crate::coupled_bufread::CoupledBufRead;
use crate::coupled_bufread::FillError;
use crate::window::lemma_apply_keeps_wf;
use crate::window::Window;
use crate::window::WindowOp;
use std::io::BufRead;
use vstd::prelude::*;
use vstd::slice::slice_subrange;

verus! {

/// A window onto the bytes of a chunked source `T` that the reader of the
/// window has not consumed yet.
pub struct ContiguousBuffer<T> {
    /// The glued block; empty while the window reads the held chunk in place.
    contiguous: Vec<u8>,
    buffer: CoupledBufRead<T>,
    /// The cursor: how far into the glued block, or else into the held chunk,
    /// the bytes are consumed.
    position: usize,
    model: Ghost<Window>,
}

impl<T> ContiguousBuffer<T> {
    /// What the window stands for: its stream, consumed offset and glued block.
    pub closed spec fn model(&self) -> Window {
        self.model@
    }

    /// The logical window: the bytes that were not consumed yet.
    pub open spec fn view(&self) -> Seq<u8> {
        self.model().unread()
    }

    /// The storage that the cursor points into: the glued block if there is
    /// one, else the chunk held by the facade.
    spec fn backing(&self) -> Seq<u8> {
        if self.contiguous@.len() > 0 {
            self.contiguous@
        } else {
            self.buffer@
        }
    }

    /// The storage agrees with the model: the glued block is the model's, the
    /// cursor lies within the storage, and the storage from the cursor onward
    /// is the logical window.
    pub closed spec fn wf(&self) -> bool {
        &&& self.model@.wf()
        &&& self.model@.glued =~= self.contiguous@
        &&& self.position <= self.backing().len()
        &&& self.backing().skip(self.position as int) =~= self.model@.unread()
    }

    /// Whoever holds a well-formed window holds a well-formed model.
    pub proof fn lemma_wf_model(&self)
        requires
            self.wf(),
        ensures
            self.model().wf(),
    {
    }

    /// Starts a window on `buffer`, seeded with the bytes that an earlier
    /// window left unread.
    pub fn new(unread: Vec<u8>, buffer: T) -> (window: ContiguousBuffer<T>)
        ensures
            window.wf(),
            window.model() == Window::fresh(unread@),
            window@ == unread@,
    {
        let ghost seed = Window::fresh(unread@);
        let window = ContiguousBuffer {
            contiguous: unread,
            buffer: CoupledBufRead::new(buffer),
            position: 0,
            model: Ghost(seed),
        };
        proof {
            assert(window.backing().skip(0) =~= seed.unread());
            assert(seed.glued.skip(0) =~= seed.unread());
        }
        window
    }

    fn vec(&self) -> (backing: &[u8])
        ensures
            backing@ == self.backing(),
    {
        if self.contiguous.is_empty() {
            self.buffer.data()
        } else {
            self.contiguous.as_slice()
        }
    }

    /// Copies the unread rest of the held chunk into the glued block, unless
    /// a glued block exists already or nothing is unread.
    fn glue(&mut self)
        requires
            old(self).wf(),
        ensures
            final(self).wf(),
            final(self).model() == old(self).model().settle(),
            final(self).contiguous@.len() == 0 ==> final(self).model().unread().len() == 0,
    {
        if self.contiguous.is_empty() {
            let data = self.buffer.data();
            let rest = slice_subrange(data, self.position, data.len());
            self.contiguous.extend_from_slice(rest);
            proof {
                assert(self.contiguous@ =~= old(self).model().unread());
            }
            if !self.contiguous.is_empty() {
                self.position = 0;
            }
            self.model = Ghost(old(self).model().settle());
            proof {
                assert(self.contiguous@.skip(0) =~= self.contiguous@);
            }
        } else {
            proof {
                assert(old(self).model().settle() == old(self).model());
            }
        }
    }

    /// Takes in the outcome of a fetch from the source.
    ///
    /// A chunk with bytes is appended to the stream: it is copied behind the
    /// unread bytes if there are any, and read in place if there are none. A
    /// chunk of zero bytes, or a failure of the source, is reported as such
    /// and leaves the logical window as it was.
    pub fn receive(&mut self, fetched: Result<Vec<u8>, std::io::Error>) -> (more: Result<
        (),
        FillError,
    >)
        requires
            old(self).wf(),
        ensures
            final(self).wf(),
            match fetched {
                Ok(chunk) => if chunk@.len() > 0 {
                    &&& more == Ok::<(), FillError>(())
                    &&& final(self).model() == old(self).model().extend(chunk@)
                    &&& final(self)@ == old(self)@ + chunk@
                } else {
                    &&& more == Err::<(), FillError>(FillError::UnexpectedEof)
                    &&& final(self).model() == old(self).model().settle()
                    &&& final(self)@ == old(self)@
                },
                Err(e) => {
                    &&& more == Err::<(), FillError>(FillError::Io(e))
                    &&& final(self).model() == old(self).model().settle()
                    &&& final(self)@ == old(self)@
                },
            },
    {
        self.glue();
        let ghost settled = self.model@;
        match self.buffer.receive(fetched) {
            Ok(_) => {
                let chunk = self.buffer.data();
                if self.contiguous.is_empty() {
                    self.position = 0;
                } else {
                    self.contiguous.extend_from_slice(chunk);
                }
                self.model = Ghost(old(self).model().extend(chunk@));
                proof {
                    let ghost after = self.model@;
                    assert(after.unread() =~= settled.unread() + chunk@);
                    if self.contiguous@.len() > 0 {
                        assert(self.contiguous@ =~= settled.glued + chunk@);
                        assert(self.contiguous@.skip(self.position as int) =~= settled.glued.skip(
                            self.position as int,
                        ) + chunk@);
                    } else {
                        assert(chunk@.skip(0) =~= chunk@);
                    }
                    lemma_apply_keeps_wf(old(self).model(), WindowOp::Fetched { chunk: chunk@ });
                }
                Ok(())
            },
            Err(e) => Err(e),
        }
    }

    /// Moves the cursor forward by `amount` bytes. When that reaches the end
    /// of a glued block exactly, the block is dropped and the window reads the
    /// source's chunks in place again.
    pub fn consume(&mut self, amount: usize)
        requires
            old(self).wf(),
            amount <= old(self)@.len(),
        ensures
            final(self).wf(),
            final(self).model() == old(self).model().consume(amount as nat),
            final(self)@ == old(self)@.skip(amount as int),
            amount == old(self)@.len() ==> final(self)@.len() == 0 && final(self).model().glued.len()
                == 0,
    {
        let total = self.vec().len();
        proof {
            assert(old(self).backing().skip(old(self).position as int).len() == total
                - old(self).position);
        }
        let new_position = self.position + amount;
        if total == new_position && !self.contiguous.is_empty() {
            self.contiguous.clear();
            self.position = self.buffer.data().len();
        } else {
            self.position = new_position;
        }
        self.model = Ghost(old(self).model().consume(amount as nat));
        proof {
            let before = old(self).model();
            lemma_apply_keeps_wf(before, WindowOp::Consume { amount: amount as nat });
            assert(self.model@.unread() =~= before.unread().skip(amount as int));
            assert(self.backing().skip(self.position as int) =~= old(self).backing().skip(
                old(self).position as int,
            ).skip(amount as int));
        }
    }

    /// The logical window, in one piece: the stream of all bytes that entered
    /// the window, from the consumed offset onward.
    pub fn as_slice(&self) -> (slice: &[u8])
        requires
            self.wf(),
        ensures
            slice@ == self@,
            slice@ == self.model().stream.skip(self.model().consumed as int),
    {
        let backing = self.vec();
        slice_subrange(backing, self.position, backing.len())
    }

    /// The number of unread bytes.
    pub fn len(&self) -> (len: usize)
        requires
            self.wf(),
        ensures
            len == self@.len(),
    {
        self.as_slice().len()
    }
}

impl<T: BufRead> ContiguousBuffer<T> {
    /// Glues the unread bytes and tells the source that its latest chunk has
    /// been taken over.
    fn copy_unread(&mut self)
        requires
            old(self).wf(),
        ensures
            final(self).wf(),
            final(self).model() == old(self).model().settle(),
            final(self).contiguous@.len() == 0 ==> final(self).model().unread().len() == 0,
    {
        self.glue();
        self.buffer.consume_all();
    }

    /// Makes room for more bytes and fetches the next chunk from the source.
    ///
    /// Unread bytes are glued first, so that the window stays in one piece.
    /// What the fetch brings is the source's to decide. Whatever it is: on
    /// success the stream has grown at its end, by the chunk that was fetched,
    /// which has bytes; on failure the unread bytes are glued and nothing else
    /// has changed. The consumed offset stays where it was either way.
    pub fn more_buf(&mut self) -> (more: Result<(), FillError>)
        requires
            old(self).wf(),
        ensures
            final(self).wf(),
            more is Ok ==> {
                let chunk = final(self).model().stream.skip(old(self).model().stream.len() as int);
                &&& chunk.len() > 0
                &&& final(self).model() == old(self).model().extend(chunk)
                &&& final(self)@ == old(self)@ + chunk
            },
            more is Err ==> {
                &&& final(self).model() == old(self).model().settle()
                &&& final(self)@ == old(self)@
            },
    {
        self.copy_unread();
        let fetched = self.buffer.fetch();
        let ghost outcome = fetched;
        let more = self.receive(fetched);
        proof {
            let before = old(self).model();
            assert(before.settle().settle() == before.settle());
            if let Ok(chunk) = outcome {
                if chunk@.len() > 0 {
                    assert(before.settle().extend(chunk@) == before.extend(chunk@));
                    assert((before.stream + chunk@).skip(before.stream.len() as int) =~= chunk@);
                }
            }
        }
        more
    }

    /// Ends the window and hands out the unread bytes as a block of their
    /// own, to seed a later window with.
    pub fn take_unread(self) -> (unread: Vec<u8>)
        requires
            self.wf(),
        ensures
            unread@ == self@,
    {
        let mut window = self;
        window.copy_unread();
        if window.contiguous.is_empty() || window.position == 0 {
            proof {
                assert(window.backing().skip(0) =~= window.backing());
            }
            window.contiguous
        } else {
            let mut block = window.contiguous;
            block.split_off(window.position)
        }
    }
}

} // verus!
