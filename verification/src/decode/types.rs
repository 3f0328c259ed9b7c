//! The records of a decode session: what the caller configures, what the
//! engine reports, and what the session has gathered so far.

use vstd::prelude::*;

verus! {

/// Why a decode call failed.
#[derive(Debug, Clone, Copy, PartialEq, Eq, Structural)]
pub enum JxlDecodeError {
    /// A buffer for the engine could not be had.
    AllocationFailed,
    /// The input ran out before the engine was done, and partial input was
    /// not allowed.
    InputNotComplete,
    /// The session had completed before the call.
    AlreadyFinished,
    /// The engine reported an error.
    General,
}

/// The image's metadata, as the engine reports it once.
#[derive(Debug, Clone, Copy, PartialEq, Eq, Structural)]
pub struct BasicInfo {
    pub have_container: bool,
    pub xsize: u32,
    pub ysize: u32,
    pub bits_per_sample: u32,
    pub exponent_bits_per_sample: u32,
    pub uses_original_profile: bool,
    pub have_preview: bool,
    pub have_animation: bool,
    pub orientation: u32,
    pub num_color_channels: u32,
    pub num_extra_channels: u32,
    pub alpha_bits: u32,
    pub alpha_exponent_bits: u32,
    pub alpha_premultiplied: bool,
    pub preview_xsize: u32,
    pub preview_ysize: u32,
    pub intrinsic_xsize: u32,
    pub intrinsic_ysize: u32,
}

impl BasicInfo {
    /// The record before the engine has reported anything: all zero.
    pub open spec fn blank() -> BasicInfo {
        BasicInfo {
            have_container: false,
            xsize: 0,
            ysize: 0,
            bits_per_sample: 0,
            exponent_bits_per_sample: 0,
            uses_original_profile: false,
            have_preview: false,
            have_animation: false,
            orientation: 0,
            num_color_channels: 0,
            num_extra_channels: 0,
            alpha_bits: 0,
            alpha_exponent_bits: 0,
            alpha_premultiplied: false,
            preview_xsize: 0,
            preview_ysize: 0,
            intrinsic_xsize: 0,
            intrinsic_ysize: 0,
        }
    }

    /// The size in bytes of an output buffer for the whole image, four
    /// channels of one byte each per pixel.
    pub open spec fn out_buffer_size(self) -> int {
        self.xsize * self.ysize * 4
    }

    /// Whether `buffer_size` is the size that an output buffer must have.
    pub fn is_out_buffer_size(&self, buffer_size: usize) -> (matches: bool)
        ensures
            matches == (buffer_size == self.out_buffer_size()),
    {
        assert(self.xsize * self.ysize <= 0xffff_ffff * 0xffff_ffff) by (nonlinear_arith)
            requires
                self.xsize <= 0xffff_ffff,
                self.ysize <= 0xffff_ffff,
        ;
        let pixels: u64 = (self.xsize as u64) * (self.ysize as u64);
        let bytes: u128 = (pixels as u128) * 4;
        buffer_size as u128 == bytes
    }
}

impl Default for BasicInfo {
    fn default() -> (info: BasicInfo)
        ensures
            info == BasicInfo::blank(),
    {
        BasicInfo {
            have_container: false,
            xsize: 0,
            ysize: 0,
            bits_per_sample: 0,
            exponent_bits_per_sample: 0,
            uses_original_profile: false,
            have_preview: false,
            have_animation: false,
            orientation: 0,
            num_color_channels: 0,
            num_extra_channels: 0,
            alpha_bits: 0,
            alpha_exponent_bits: 0,
            alpha_premultiplied: false,
            preview_xsize: 0,
            preview_ysize: 0,
            intrinsic_xsize: 0,
            intrinsic_ysize: 0,
        }
    }
}

/// What the engine reports of a frame when it reaches the frame's header.
#[derive(Debug, Clone, Copy, PartialEq, Eq, Structural)]
pub struct FrameHeader {
    pub duration: u32,
    pub timecode: u32,
    /// The length of the frame's name in bytes, without its terminator.
    pub name_length: u32,
    pub is_last: bool,
}

impl FrameHeader {
    /// The size of the buffer that the engine writes the frame's name into:
    /// the name and one terminating zero byte.
    pub fn name_buffer_len(&self) -> (len: usize)
        requires
            self.name_length < u32::MAX,
        ensures
            len == self.name_length + 1,
    {
        (self.name_length + 1) as usize
    }
}

/// One decoded frame.
#[derive(Debug)]
pub struct Frame {
    pub name: String,
    pub duration: u32,
    pub timecode: u32,
    pub is_last: bool,
    /// The frame's pixels, four bytes each; empty until the engine asks for
    /// the buffer.
    pub data: Vec<u8>,
}

/// A frame as a mathematical value.
pub struct FrameView {
    pub name: Seq<char>,
    pub duration: u32,
    pub timecode: u32,
    pub is_last: bool,
    pub data: Seq<u8>,
}

impl View for Frame {
    type V = FrameView;

    open spec fn view(&self) -> FrameView {
        FrameView {
            name: self.name@,
            duration: self.duration,
            timecode: self.timecode,
            is_last: self.is_last,
            data: self.data@,
        }
    }
}

impl Default for Frame {
    fn default() -> (frame: Frame)
        ensures
            frame@ == (FrameView {
                name: Seq::<char>::empty(),
                duration: 0,
                timecode: 0,
                is_last: false,
                data: Seq::<u8>::empty(),
            }),
    {
        Frame { name: String::new(), duration: 0, timecode: 0, is_last: false, data: Vec::new() }
    }
}

/// The views of `frames`, in order.
pub open spec fn frame_views(frames: Seq<Frame>) -> Seq<FrameView> {
    Seq::new(frames.len(), |i: int| frames[i]@)
}

/// The sample type of an output buffer.
#[derive(Debug, Clone, Copy, PartialEq, Eq, Structural)]
pub enum DataType {
    Uint8,
}

/// The byte order of the samples of an output buffer.
#[derive(Debug, Clone, Copy, PartialEq, Eq, Structural)]
pub enum Endianness {
    Native,
}

/// The layout of the pixels that the engine writes.
#[derive(Debug, Clone, Copy, PartialEq, Eq, Structural)]
pub struct PixelFormat {
    pub num_channels: u32,
    pub data_type: DataType,
    pub endianness: Endianness,
    pub align: usize,
}

impl PixelFormat {
    /// The one format that sessions use: red, green, blue and alpha, one
    /// byte each, rows packed.
    pub open spec fn spec_rgba8() -> PixelFormat {
        PixelFormat {
            num_channels: 4,
            data_type: DataType::Uint8,
            endianness: Endianness::Native,
            align: 0,
        }
    }

    #[verifier::when_used_as_spec(spec_rgba8)]
    pub fn rgba8() -> (format: PixelFormat)
        ensures
            format == PixelFormat::spec_rgba8(),
    {
        PixelFormat {
            num_channels: 4,
            data_type: DataType::Uint8,
            endianness: Endianness::Native,
            align: 0,
        }
    }
}

} // verus!
