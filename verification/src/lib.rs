//! An incremental decode adapter for a pull-based, event-driven image codec
//! engine.
//!
//! The engine wants its input in one piece and says how much of it it used;
//! the input arrives in chunks of any size, over any number of calls. The
//! contiguous window in [`contiguous_buffer`] bridges the two, and the session
//! in [`decode`] decides, report by report, what is done with the engine
//! next. The engine itself is driven from outside this library.

pub mod bytes;
pub mod contiguous_buffer;
pub mod coupled_bufread;
pub mod decode;
pub mod encode;
pub mod link;
pub mod text;
pub mod window;

pub use decode::config::Decoder;
pub use decode::session::DecodeProgress;
pub use decode::types::BasicInfo;
pub use decode::types::Frame;
pub use decode::types::JxlDecodeError;
pub use encode::BitmapFrame;
pub use encode::JpegFrame;
pub use encode::JxlEncodeError;
