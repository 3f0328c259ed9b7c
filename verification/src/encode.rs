//! What the encoder's driver decides: which kind of frame goes in, and how
//! the buffer grows that the engine writes the compressed stream into.

use crate::bytes::resized;
use vstd::prelude::*;
use vstd::string::StringExecFns;

verus! {

/// Why an encode call failed.
#[derive(Debug)]
pub enum JxlEncodeError {
    /// The engine refused a setting. The text names the setting and the value
    /// that was refused; the caller may choose another value and try again.
    UnsupportedValue(String),
}

/// What is said of `setting` when the engine refuses `value` for it.
pub open spec fn unsupported_text(setting: Seq<char>, value: Seq<char>) -> Seq<char> {
    setting + " value "@ + value + " is unsupported"@
}

impl JxlEncodeError {
    /// The failure to report when the engine refuses `value`, written out as
    /// text, for `setting`.
    pub fn unsupported(setting: &str, value: &str) -> (error: JxlEncodeError)
        ensures
            error matches JxlEncodeError::UnsupportedValue(text) && text@ == unsupported_text(
                setting@,
                value@,
            ),
    {
        JxlEncodeError::UnsupportedValue(
            String::from_str(setting).concat(" value ").concat(value).concat(" is unsupported"),
        )
    }
}

/// What the bytes of an input frame are.
#[derive(Debug, Clone, Copy, PartialEq, Eq, Structural)]
pub enum FrameType {
    /// Pixels: red, green, blue and alpha, one byte each.
    Bitmap,
    /// A JPEG file, to be stored so that it can be rebuilt byte for byte.
    Jpeg,
}

/// A frame that can be handed to the encoder.
pub trait InputFrame<'a> {
    spec fn frame_type(&self) -> FrameType;

    spec fn data(&self) -> Seq<u8>;

    fn get_type(&self) -> (frame_type: FrameType)
        ensures
            frame_type == self.frame_type(),
    ;

    fn get_data(&self) -> (data: &'a [u8])
        ensures
            data@ == self.data(),
    ;
}

pub struct BitmapFrame<'a> {
    pub data: &'a [u8],
}

impl<'a> InputFrame<'a> for BitmapFrame<'a> {
    open spec fn frame_type(&self) -> FrameType {
        FrameType::Bitmap
    }

    open spec fn data(&self) -> Seq<u8> {
        self.data@
    }

    fn get_type(&self) -> (frame_type: FrameType) {
        FrameType::Bitmap
    }

    fn get_data(&self) -> (data: &'a [u8]) {
        self.data
    }
}

pub struct JpegFrame<'a> {
    pub data: &'a [u8],
}

impl<'a> InputFrame<'a> for JpegFrame<'a> {
    open spec fn frame_type(&self) -> FrameType {
        FrameType::Jpeg
    }

    open spec fn data(&self) -> Seq<u8> {
        self.data@
    }

    fn get_type(&self) -> (frame_type: FrameType) {
        FrameType::Jpeg
    }

    fn get_data(&self) -> (data: &'a [u8]) {
        self.data
    }
}

/// The size that an output buffer starts with.
pub const INITIAL_OUTPUT_SIZE: usize = 64;

/// The buffer that the engine writes the compressed stream into. The engine
/// fills it from the front and says how much room it has left; when the room
/// runs out, the buffer doubles.
pub struct OutputBuffer {
    pub bytes: Vec<u8>,
    /// How many bytes at the front of `bytes` the engine has written.
    pub written: usize,
}

impl OutputBuffer {
    pub open spec fn wf(&self) -> bool {
        self.written <= self.bytes@.len()
    }

    /// The room that is left behind the written bytes.
    pub open spec fn room(&self) -> int {
        self.bytes@.len() - self.written
    }

    /// An output buffer of 64 zero bytes, none of them written.
    pub fn new() -> (buffer: OutputBuffer)
        ensures
            buffer.wf(),
            buffer.written == 0,
            buffer.bytes@ == resized(Seq::<u8>::empty(), INITIAL_OUTPUT_SIZE as nat),
    {
        let mut bytes: Vec<u8> = Vec::new();
        bytes.resize(INITIAL_OUTPUT_SIZE, 0);
        proof {
            assert(bytes@ =~= resized(Seq::<u8>::empty(), INITIAL_OUTPUT_SIZE as nat));
        }
        OutputBuffer { bytes, written: 0 }
    }

    /// The room that is left behind the written bytes.
    pub fn available(&self) -> (room: usize)
        requires
            self.wf(),
        ensures
            room == self.room(),
    {
        self.bytes.len() - self.written
    }

    /// Doubles the buffer after the engine ran out of room with `avail_out`
    /// bytes still free. What the engine wrote stays in front; the engine
    /// goes on writing behind it.
    pub fn grow(&mut self, avail_out: usize)
        requires
            avail_out <= old(self).bytes@.len(),
            2 * old(self).bytes@.len() <= usize::MAX,
        ensures
            final(self).wf(),
            final(self).written == old(self).bytes@.len() - avail_out,
            final(self).bytes@ == resized(old(self).bytes@, (2 * old(self).bytes@.len()) as nat),
    {
        let len = self.bytes.len();
        self.written = len - avail_out;
        self.bytes.resize(len * 2, 0);
        proof {
            assert(self.bytes@ =~= resized(old(self).bytes@, (2 * old(self).bytes@.len()) as nat));
        }
    }

    /// Ends the output once the engine is done with `avail_out` bytes still
    /// free: the compressed stream is what lies in front of them.
    pub fn finish(self, avail_out: usize) -> (compressed: Vec<u8>)
        requires
            avail_out <= self.bytes@.len(),
        ensures
            compressed@ == self.bytes@.take(self.bytes@.len() - avail_out),
    {
        let mut compressed = self.bytes;
        let len = compressed.len();
        compressed.truncate(len - avail_out);
        compressed
    }
}

} // verus!
