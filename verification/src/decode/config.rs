//! What a caller asks of a decode session, and what that means for the
//! engine.

use crate::decode::types::PixelFormat;
use vstd::prelude::*;

verus! {

/// The configuration of a decode session. The toggles are independent of
/// each other; with `no_full_frame` set, the toggles on frames have nothing
/// to act on.
#[derive(Debug, Clone, Copy)]
pub struct Decoder {
    /// Whether the engine keeps the stored orientation; `None` leaves the
    /// engine's default in place.
    pub keep_orientation: Option<bool>,
    /// Reads the color profile into the session's `color_profile`.
    pub need_color_profile: bool,
    /// Reads the preview image, if the stream has one, into the session's
    /// `preview`.
    pub need_optional_preview: bool,
    /// Reads no frames at all: the session's `frames` stays empty.
    pub no_full_frame: bool,
    /// Reads the frames' headers without their pixels.
    pub no_full_image: bool,
    /// Stops a call as soon as a frame is complete.
    pub stop_on_frame: bool,
    /// Stops a call as soon as a frame is complete and the session holds this
    /// many frames.
    pub frame_limit: Option<usize>,
    /// Lets a call end in a suspended session when the input runs out.
    pub allow_partial: bool,
    /// Asks the engine, when the input runs out in a call that allows partial
    /// input, to write out what it has of the frame in progress.
    pub flush_on_eof: bool,
}

/// The categories of reports that a session subscribes to.
#[derive(Debug, Clone, Copy, PartialEq, Eq, Structural)]
pub struct EventSubscription {
    pub basic_info: bool,
    pub color_encoding: bool,
    pub preview_image: bool,
    pub frame: bool,
    pub full_image: bool,
}

/// How one call on a session ends early.
#[derive(Debug, Clone, Copy, PartialEq, Eq, Structural)]
pub struct RunPolicy {
    pub allow_partial: bool,
    pub stop_on_frame: bool,
    pub frame_limit: Option<usize>,
    pub flush_on_eof: bool,
}

/// What has to be done to the engine before a session's first call.
#[derive(Debug, Clone, Copy, PartialEq, Eq, Structural)]
pub struct SessionSetup {
    /// The orientation setting to pass on, if the caller chose one.
    pub keep_orientation: Option<bool>,
    /// The reports to subscribe to.
    pub subscription: EventSubscription,
    /// The layout of every output buffer of the session.
    pub pixel_format: PixelFormat,
}

impl RunPolicy {
    /// Whether a call under this policy stops at a completed frame, given
    /// how many frames the session holds and whether the newest is the
    /// stream's last. After the last frame a call always runs on, so that the
    /// session can complete.
    pub open spec fn stops_at(self, frames: nat, newest_is_last: bool) -> bool {
        &&& frames > 0
        &&& !newest_is_last
        &&& (self.stop_on_frame || (self.frame_limit matches Some(limit) && frames >= limit))
    }
}

impl Decoder {
    /// The configuration with every toggle off.
    pub open spec fn blank() -> Decoder {
        Decoder {
            keep_orientation: None,
            need_color_profile: false,
            need_optional_preview: false,
            no_full_frame: false,
            no_full_image: false,
            stop_on_frame: false,
            frame_limit: None,
            allow_partial: false,
            flush_on_eof: false,
        }
    }

    /// What this configuration subscribes to: the basic info always; the
    /// color profile and the preview on request; frame headers unless frames
    /// are suppressed; pixels unless frames or pixels are suppressed.
    pub open spec fn subscription(self) -> EventSubscription {
        EventSubscription {
            basic_info: true,
            color_encoding: self.need_color_profile,
            preview_image: self.need_optional_preview,
            frame: !self.no_full_frame,
            full_image: !self.no_full_image && !self.no_full_frame,
        }
    }

    /// The policy of a call that this configuration starts.
    pub open spec fn run_policy(self) -> RunPolicy {
        RunPolicy {
            allow_partial: self.allow_partial,
            stop_on_frame: self.stop_on_frame,
            frame_limit: self.frame_limit,
            flush_on_eof: self.flush_on_eof,
        }
    }

    /// What this configuration asks of a session's engine: the caller's
    /// orientation setting, the subscription, and the one pixel format that
    /// sessions use.
    pub open spec fn session_setup(self) -> SessionSetup {
        SessionSetup {
            keep_orientation: self.keep_orientation,
            subscription: self.subscription(),
            pixel_format: PixelFormat::rgba8(),
        }
    }

    #[inline]
    pub fn new() -> (decoder: Decoder)
        ensures
            decoder == Decoder::blank(),
    {
        Decoder {
            keep_orientation: None,
            need_color_profile: false,
            need_optional_preview: false,
            no_full_frame: false,
            no_full_image: false,
            stop_on_frame: false,
            frame_limit: None,
            allow_partial: false,
            flush_on_eof: false,
        }
    }

    /// The policy of a call that this configuration starts.
    pub fn policy(&self) -> (policy: RunPolicy)
        ensures
            policy == self.run_policy(),
    {
        RunPolicy {
            allow_partial: self.allow_partial,
            stop_on_frame: self.stop_on_frame,
            frame_limit: self.frame_limit,
            flush_on_eof: self.flush_on_eof,
        }
    }
}

impl Decoder {
    /// What has to be done to the engine before the first call of a session
    /// that this configuration starts.
    pub fn setup(&self) -> (setup: SessionSetup)
        ensures
            setup == self.session_setup(),
    {
        SessionSetup {
            keep_orientation: self.keep_orientation,
            subscription: get_event_subscription_flags(self),
            pixel_format: PixelFormat::rgba8(),
        }
    }
}

impl Default for Decoder {
    fn default() -> (decoder: Decoder)
        ensures
            decoder == Decoder::blank(),
    {
        Decoder::new()
    }
}

/// The categories of reports that a session configured by `dec` subscribes
/// to, computed once when the session starts.
pub fn get_event_subscription_flags(dec: &Decoder) -> (flags: EventSubscription)
    ensures
        flags == dec.subscription(),
{
    let mut flags = EventSubscription {
        basic_info: true,
        color_encoding: false,
        preview_image: false,
        frame: false,
        full_image: false,
    };
    if dec.need_color_profile {
        flags.color_encoding = true;
    }
    if dec.need_optional_preview {
        flags.preview_image = true;
    }
    if !dec.no_full_frame {
        flags.frame = true;
    }
    if !dec.no_full_image && !dec.no_full_frame {
        flags.full_image = true;
    }
    flags
}

} // verus!
