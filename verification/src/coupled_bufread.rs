//! A facade over a chunked byte source.
//!
//! The facade keeps its own copy of the chunk it fetched last, so that the
//! bytes stay readable after the source has been told to move on.

use std::io::BufRead;
use vstd::prelude::*;

verus! {

#[verifier::external_type_specification]
#[verifier::external_body]
pub struct ExIoError(std::io::Error);

/// Why a fetch brought no bytes.
#[derive(Debug)]
pub enum FillError {
    /// The source is exhausted: it handed out a chunk of zero bytes.
    UnexpectedEof,
    /// The source reported a failure of its own, passed on as it came.
    Io(std::io::Error),
}

/// Calls `BufRead::fill_buf` and copies the bytes that it hands out.
///
/// Nothing is claimed of the outcome: it is whatever the source delivers.
#[verifier::external_body]
fn source_fill<T: BufRead>(source: &mut T) -> (fetched: Result<Vec<u8>, std::io::Error>) {
    match source.fill_buf() {
        Ok(bytes) => Ok(bytes.to_vec()),
        Err(e) => Err(e),
    }
}

/// A chunked byte source together with an owned copy of its latest chunk.
pub struct CoupledBufRead<T> {
    buf_read: T,
    data: Vec<u8>,
    /// How many bytes of the source's own buffer were handed out by the latest
    /// fetch and not retired yet.
    unretired: usize,
}

impl<T> CoupledBufRead<T> {
    /// The chunk that the facade holds: empty until the first successful fetch.
    pub closed spec fn view(&self) -> Seq<u8> {
        self.data@
    }

    /// How many bytes the source handed out at the latest fetch and was not
    /// told to retire yet.
    pub closed spec fn outstanding(&self) -> nat {
        self.unretired as nat
    }

    pub fn new(buf_read: T) -> (facade: CoupledBufRead<T>)
        ensures
            facade@ == Seq::<u8>::empty(),
            facade.outstanding() == 0,
    {
        CoupledBufRead { buf_read, data: Vec::new(), unretired: 0 }
    }

    /// Takes in the outcome of a fetch. A chunk with bytes replaces the held
    /// chunk and is handed out; a chunk of zero bytes means that the source is
    /// exhausted, and counts as a failure, as does a failure of the source.
    /// After a failure the held chunk is the one from before.
    pub fn receive(&mut self, fetched: Result<Vec<u8>, std::io::Error>) -> (filled: Result<
        &[u8],
        FillError,
    >)
        ensures
            final(self).outstanding() == old(self).outstanding(),
            match fetched {
                Ok(chunk) => if chunk@.len() > 0 {
                    &&& final(self)@ == chunk@
                    &&& filled matches Ok(bytes)
                    &&& bytes@ == chunk@
                } else {
                    &&& final(self)@ == old(self)@
                    &&& filled == Err::<&[u8], FillError>(FillError::UnexpectedEof)
                },
                Err(e) => {
                    &&& final(self)@ == old(self)@
                    &&& filled == Err::<&[u8], FillError>(FillError::Io(e))
                },
            },
    {
        match fetched {
            Ok(chunk) => {
                if chunk.is_empty() {
                    Err(FillError::UnexpectedEof)
                } else {
                    self.data = chunk;
                    Ok(self.data.as_slice())
                }
            },
            Err(e) => Err(FillError::Io(e)),
        }
    }

    /// The chunk that the facade holds.
    pub fn data(&self) -> (chunk: &[u8])
        ensures
            chunk@ == self@,
    {
        self.data.as_slice()
    }
}

impl<T: BufRead> CoupledBufRead<T> {
    /// Calls `BufRead::consume` with the facade's count of outstanding bytes.
    ///
    /// `BufRead` asks that no more be consumed than the latest `fill_buf`
    /// handed out and was not consumed since. That is what the count holds:
    /// a fetch sets it to the length of what the source handed out, this call
    /// is followed by setting it to zero, and nothing else writes it. The
    /// facade itself is left as it is.
    #[verifier::external_body]
    fn source_consume(&mut self)
        ensures
            final(self).data == old(self).data,
            final(self).unretired == old(self).unretired,
    {
        self.buf_read.consume(self.unretired)
    }

    /// Asks the source for its next chunk and notes how much of the source's
    /// buffer is now outstanding. The chunk held by the facade is not touched.
    pub fn fetch(&mut self) -> (fetched: Result<Vec<u8>, std::io::Error>)
        ensures
            final(self)@ == old(self)@,
            final(self).outstanding() == match fetched {
                Ok(chunk) => chunk@.len(),
                Err(_) => old(self).outstanding(),
            },
    {
        let fetched = source_fill(&mut self.buf_read);
        match &fetched {
            Ok(chunk) => {
                self.unretired = chunk.len();
            },
            Err(_) => {},
        }
        fetched
    }

    /// Fetches the next chunk from the source and hands out a view of it.
    ///
    /// What comes back is the source's to decide. Whatever it is, a success
    /// hands out the held chunk, which then has bytes, all of them outstanding,
    /// and a failure leaves the held chunk as it was: with nothing outstanding
    /// if the source is exhausted, with what was outstanding if it failed.
    pub fn fill_buf(&mut self) -> (filled: Result<&[u8], FillError>)
        ensures
            filled matches Ok(bytes) ==> {
                &&& bytes@ == final(self)@
                &&& bytes@.len() > 0
                &&& final(self).outstanding() == bytes@.len()
            },
            filled is Err ==> final(self)@ == old(self)@,
            filled matches Err(FillError::UnexpectedEof) ==> final(self).outstanding() == 0,
            filled matches Err(FillError::Io(_)) ==> final(self).outstanding() == old(
                self,
            ).outstanding(),
    {
        let fetched = self.fetch();
        self.receive(fetched)
    }

    /// Tells the source that every byte it handed out at the latest fetch has
    /// been used, unless it was told so already. The held chunk stays readable.
    pub fn consume_all(&mut self)
        ensures
            final(self)@ == old(self)@,
            final(self).outstanding() == 0,
    {
        self.source_consume();
        self.unretired = 0;
    }
}

} // verus!
