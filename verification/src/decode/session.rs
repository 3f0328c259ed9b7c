//! The decode session and the state machine that drives it.
//!
//! The engine is driven from outside: whoever owns it advances it, reports
//! what it said as a [`DecodeEvent`], and is told by a [`DecodeAction`] what
//! to do with the engine next. All that is decided in between is decided
//! here.

use crate::bytes::resized;
use crate::contiguous_buffer::ContiguousBuffer;
use crate::coupled_bufread::FillError;
use crate::decode::config::RunPolicy;
use crate::decode::types::frame_views;
use crate::decode::types::BasicInfo;
use crate::decode::types::Frame;
use crate::decode::types::FrameHeader;
use crate::decode::types::FrameView;
use crate::decode::types::JxlDecodeError;
use crate::text::string_from_utf8_lossy;
use crate::text::utf8_lossy;
use crate::window::Window;
use std::io::BufRead;
use vstd::prelude::*;

verus! {

/// Where a session stands.
#[derive(Debug, Clone, Copy, PartialEq, Eq, Structural)]
pub enum SessionState {
    /// Nothing was fed to the engine yet.
    Fresh,
    /// A call is under way.
    Running,
    /// The input ran out in a call that allowed partial input.
    Suspended,
    /// The engine reported success. No further call is permitted.
    Completed,
    /// A call stopped at a completed frame, as its policy asked.
    PartialStop,
    /// A call failed.
    Failed,
}

/// What the engine reported, with the values that the session acts on.
#[derive(Debug)]
pub enum DecodeEvent {
    /// The engine needs more input. It was made to release its input and
    /// said that `remaining` bytes of it were not used.
    NeedMoreInput { remaining: usize },
    /// The basic info is available, and is `info`.
    BasicInfo { info: BasicInfo },
    /// The color profile is available, and takes `icc_size` bytes.
    ColorEncoding { icc_size: usize },
    /// A frame begins. `name` is the buffer that the engine wrote the frame's
    /// name into: the name and one terminating zero byte.
    Frame { header: FrameHeader, name: Vec<u8> },
    /// The engine needs an output buffer of `buffer_size` bytes for the
    /// preview.
    NeedPreviewOutBuffer { buffer_size: usize },
    /// The engine needs an output buffer of `buffer_size` bytes for the
    /// pixels of the frame that began last.
    NeedImageOutBuffer { buffer_size: usize },
    /// A frame is complete.
    FullImage,
    /// The engine released its input on request and said that `remaining`
    /// bytes of it were not used.
    InputReleased { remaining: usize },
    /// The engine is done with the stream.
    Success,
    /// The engine reported an error.
    Error,
}

/// What to do with the engine next.
#[derive(Debug, Clone, Copy, PartialEq, Eq, Structural)]
pub enum DecodeAction {
    /// Advance the engine and report what it says.
    Process,
    /// Hand the engine the run's window as its input, then advance it.
    SetInput,
    /// Have the engine write the color profile into the session's
    /// `color_profile`, then advance it.
    WriteColorProfile,
    /// Hand the engine the session's `preview` as output buffer, then advance
    /// it.
    SetPreviewOutBuffer,
    /// Hand the engine the `data` of the session's newest frame as output
    /// buffer, then advance it.
    SetImageOutBuffer,
    /// Make the engine release its input and report how much was not used.
    ReleaseInput,
    /// End the call: the input ran out. With `flush`, first ask the engine to
    /// write out what it has of the frame in progress.
    Suspend { flush: bool },
    /// End the call: it stopped at a completed frame.
    Stop,
    /// End the call: the stream is decoded.
    Complete,
}

/// A session as a mathematical value.
pub struct ProgressView {
    pub state: SessionState,
    /// The unread bytes that the last call left for the next one.
    pub leftover: Seq<u8>,
    pub basic_info: BasicInfo,
    pub color_profile: Seq<u8>,
    pub preview: Seq<u8>,
    pub frames: Seq<FrameView>,
}

/// The name that a frame gets from the buffer that the engine wrote its name
/// into: the text of the buffer without its terminating byte.
pub open spec fn frame_name(buffer: Seq<u8>) -> Seq<char> {
    if buffer.len() > 0 {
        utf8_lossy(buffer.drop_last())
    } else {
        utf8_lossy(buffer)
    }
}

impl ProgressView {
    /// The session before anything was decoded.
    pub open spec fn fresh() -> ProgressView {
        ProgressView {
            state: SessionState::Fresh,
            leftover: Seq::empty(),
            basic_info: BasicInfo::blank(),
            color_profile: Seq::empty(),
            preview: Seq::empty(),
            frames: Seq::empty(),
        }
    }

    /// Whether the session may still be fed: it has not completed.
    pub open spec fn is_partial(self) -> bool {
        self.state != SessionState::Completed
    }

    pub open spec fn with_state(self, state: SessionState) -> ProgressView {
        ProgressView { state, ..self }
    }

    pub open spec fn with_leftover(self, leftover: Seq<u8>) -> ProgressView {
        ProgressView { leftover, ..self }
    }

    pub open spec fn with_basic_info(self, info: BasicInfo) -> ProgressView {
        ProgressView { basic_info: info, ..self }
    }

    /// The color profile brought to the size that the engine asked for.
    pub open spec fn with_color_profile(self, icc_size: nat) -> ProgressView {
        ProgressView { color_profile: resized(self.color_profile, icc_size), ..self }
    }

    /// One more frame, behind those that are there, without pixels yet.
    pub open spec fn with_frame(self, header: FrameHeader, name: Seq<u8>) -> ProgressView {
        ProgressView {
            frames: self.frames.push(
                FrameView {
                    name: frame_name(name),
                    duration: header.duration,
                    timecode: header.timecode,
                    is_last: header.is_last,
                    data: Seq::empty(),
                },
            ),
            ..self
        }
    }

    /// The preview brought to the size that the engine asked for.
    pub open spec fn with_preview(self, buffer_size: nat) -> ProgressView {
        ProgressView { preview: resized(self.preview, buffer_size), ..self }
    }

    /// The pixels of the newest frame brought to the size that the engine
    /// asked for.
    pub open spec fn with_image(self, buffer_size: nat) -> ProgressView {
        let newest = self.frames.last();
        ProgressView {
            frames: self.frames.drop_last().push(
                FrameView { data: resized(newest.data, buffer_size), ..newest },
            ),
            ..self
        }
    }

    /// Whether a call under `policy` stops at the frame that was just
    /// completed.
    pub open spec fn stops(self, policy: RunPolicy) -> bool {
        policy.stops_at(self.frames.len(), self.frames.last().is_last)
    }
}

/// Whether `event` may be reported to a session that looks like `p`. An
/// output buffer has the size that the image's dimensions give, and the
/// buffer for a frame's pixels is asked for after the frame began.
pub open spec fn event_fits(p: ProgressView, event: DecodeEvent) -> bool {
    match event {
        DecodeEvent::NeedPreviewOutBuffer { buffer_size } => buffer_size
            == p.basic_info.out_buffer_size(),
        DecodeEvent::NeedImageOutBuffer { buffer_size } => {
            &&& buffer_size == p.basic_info.out_buffer_size()
            &&& p.frames.len() > 0
        },
        _ => true,
    }
}

/// What a session makes of the outcome of a fetch, under `policy`. Fresh
/// input goes to the engine. Without it, a call that allows partial input
/// ends in a suspended session, and any other call fails.
pub open spec fn answer_fetch(p: ProgressView, policy: RunPolicy, fetched: bool) -> (
    ProgressView,
    Result<DecodeAction, JxlDecodeError>,
) {
    if fetched {
        (p.with_state(SessionState::Running), Ok(DecodeAction::SetInput))
    } else if policy.allow_partial {
        (
            p.with_state(SessionState::Suspended),
            Ok(DecodeAction::Suspend { flush: policy.flush_on_eof }),
        )
    } else {
        (p.with_state(SessionState::Failed), Err(JxlDecodeError::InputNotComplete))
    }
}

/// What a session that has not completed makes of a report, under `policy`:
/// the session afterwards, and what it answers. `fetched` says whether the
/// window got more input; it matters only when the engine needs more.
pub open spec fn answer(p: ProgressView, policy: RunPolicy, event: DecodeEvent, fetched: bool) -> (
    ProgressView,
    Result<DecodeAction, JxlDecodeError>,
) {
    match event {
        DecodeEvent::NeedMoreInput { .. } => answer_fetch(p, policy, fetched),
        DecodeEvent::BasicInfo { info } => (p.with_basic_info(info), Ok(DecodeAction::Process)),
        DecodeEvent::ColorEncoding { icc_size } => (
            p.with_color_profile(icc_size as nat),
            Ok(DecodeAction::WriteColorProfile),
        ),
        DecodeEvent::Frame { header, name } => (
            p.with_frame(header, name@),
            Ok(DecodeAction::Process),
        ),
        DecodeEvent::NeedPreviewOutBuffer { buffer_size } => (
            p.with_preview(buffer_size as nat),
            Ok(DecodeAction::SetPreviewOutBuffer),
        ),
        DecodeEvent::NeedImageOutBuffer { buffer_size } => (
            p.with_image(buffer_size as nat),
            Ok(DecodeAction::SetImageOutBuffer),
        ),
        DecodeEvent::FullImage => if p.stops(policy) {
            (p, Ok(DecodeAction::ReleaseInput))
        } else {
            (p, Ok(DecodeAction::Process))
        },
        DecodeEvent::InputReleased { .. } => (
            p.with_state(SessionState::PartialStop),
            Ok(DecodeAction::Stop),
        ),
        DecodeEvent::Success => (
            p.with_state(SessionState::Completed),
            Ok(DecodeAction::Complete),
        ),
        DecodeEvent::Error => (p.with_state(SessionState::Failed), Err(JxlDecodeError::General)),
    }
}

/// What a report does to the window of the call. When the engine needs more
/// input, or has released its input, the bytes that it used, all of the
/// window but the last `remaining`, are consumed; when it needs more, `chunk`
/// is what the window fetched, empty if it got nothing. Any other report
/// leaves the window alone.
pub open spec fn window_after(w: Window, event: DecodeEvent, chunk: Seq<u8>) -> Window {
    match event {
        DecodeEvent::NeedMoreInput { remaining } => {
            let drained = w.consume((w.unread().len() - remaining) as nat);
            if chunk.len() > 0 {
                drained.extend(chunk)
            } else {
                drained.settle()
            }
        },
        DecodeEvent::InputReleased { remaining } => w.consume(
            (w.unread().len() - remaining) as nat,
        ),
        _ => w,
    }
}

/// Running out of input: under a policy that does not allow partial input the
/// call fails, saying that the input is not complete; under one that allows
/// it the call never fails, and leaves a suspended session that may still be
/// fed. Either way the session's results stay as they are.
pub proof fn lemma_input_exhausted(p: ProgressView, policy: RunPolicy)
    ensures
        !policy.allow_partial ==> answer_fetch(p, policy, false).1 == Err::<
            DecodeAction,
            JxlDecodeError,
        >(JxlDecodeError::InputNotComplete),
        policy.allow_partial ==> {
            &&& answer_fetch(p, policy, false).1 is Ok
            &&& answer_fetch(p, policy, false).0.state == SessionState::Suspended
            &&& answer_fetch(p, policy, false).0.is_partial()
        },
        answer_fetch(p, policy, false).0.frames == p.frames,
        answer_fetch(p, policy, false).0.basic_info == p.basic_info,
        answer_fetch(p, policy, false).0.color_profile == p.color_profile,
        answer_fetch(p, policy, false).0.preview == p.preview,
{
}

/// Frames are only ever appended to: whatever is reported, the frames that a
/// session held before are still there afterwards, in their places, with
/// their names and their timing; a report changes the pixels of the newest
/// frame at most.
pub proof fn lemma_frames_append_only(
    p: ProgressView,
    policy: RunPolicy,
    event: DecodeEvent,
    fetched: bool,
)
    requires
        event_fits(p, event),
    ensures
        p.frames.len() <= answer(p, policy, event, fetched).0.frames.len() <= p.frames.len() + 1,
        forall|i: int|
            0 <= i < p.frames.len() ==> {
                let kept = #[trigger] answer(p, policy, event, fetched).0.frames[i];
                &&& kept.name == p.frames[i].name
                &&& kept.duration == p.frames[i].duration
                &&& kept.timecode == p.frames[i].timecode
                &&& kept.is_last == p.frames[i].is_last
                &&& i < p.frames.len() - 1 ==> kept == p.frames[i]
            },
{
}

/// The results of a decode session, and where the session stands.
#[derive(Debug)]
pub struct DecodeProgress {
    unread_buffer: Option<Vec<u8>>,
    state: SessionState,
    pub basic_info: BasicInfo,
    /// Empty unless the color profile was asked for.
    pub color_profile: Vec<u8>,
    /// Empty unless the preview was asked for and the stream has one.
    pub preview: Vec<u8>,
    /// The frames in the order in which they were decoded.
    pub frames: Vec<Frame>,
}

impl DecodeProgress {
    /// The session as a mathematical value.
    pub closed spec fn view(&self) -> ProgressView {
        ProgressView {
            state: self.state,
            leftover: match self.unread_buffer {
                Some(bytes) => bytes@,
                None => Seq::empty(),
            },
            basic_info: self.basic_info,
            color_profile: self.color_profile@,
            preview: self.preview@,
            frames: frame_views(self.frames@),
        }
    }

    /// A session that nothing was fed to yet.
    pub fn new() -> (progress: DecodeProgress)
        ensures
            progress@ == ProgressView::fresh(),
    {
        let progress = DecodeProgress {
            unread_buffer: None,
            state: SessionState::Fresh,
            basic_info: BasicInfo::default(),
            color_profile: Vec::new(),
            preview: Vec::new(),
            frames: Vec::new(),
        };
        proof {
            assert(progress@.frames =~= Seq::<FrameView>::empty());
        }
        progress
    }

    /// Whether the session may still be fed: true until the engine has
    /// reported success.
    pub fn is_partial(&self) -> (partial: bool)
        ensures
            partial == self@.is_partial(),
    {
        match self.state {
            SessionState::Completed => false,
            _ => true,
        }
    }

    /// Where the session stands.
    pub fn session_state(&self) -> (state: SessionState)
        ensures
            state == self@.state,
    {
        self.state
    }

    /// The image's metadata, as far as the engine has reported it.
    pub fn info(&self) -> (info: BasicInfo)
        ensures
            info == self@.basic_info,
    {
        self.basic_info
    }

    /// The frames decoded so far, in the order in which they were decoded.
    pub fn decoded_frames(&self) -> (frames: &Vec<Frame>)
        ensures
            frame_views(frames@) == self@.frames,
    {
        &self.frames
    }

    /// Keeps the basic info that the engine reported.
    pub fn read_basic_info(&mut self, info: BasicInfo)
        ensures
            final(self)@ == old(self)@.with_basic_info(info),
    {
        self.basic_info = info;
    }

    /// Brings `color_profile` to the `icc_size` bytes that the engine is
    /// about to write.
    pub fn read_color_encoding(&mut self, icc_size: usize)
        ensures
            final(self)@ == old(self)@.with_color_profile(icc_size as nat),
    {
        self.color_profile.resize(icc_size, 0);
        proof {
            assert(self.color_profile@ =~= resized(old(self).color_profile@, icc_size as nat));
        }
    }

    /// Appends the frame that the engine announced. `name` is the buffer
    /// that the engine wrote the frame's name into; the frame is named by the
    /// text in it, without the terminating byte.
    pub fn prepare_frame(&mut self, header: FrameHeader, name: Vec<u8>)
        ensures
            final(self)@ == old(self)@.with_frame(header, name@),
    {
        let mut name_vec = name;
        name_vec.pop();
        let frame = Frame {
            name: string_from_utf8_lossy(name_vec.as_slice()),
            duration: header.duration,
            timecode: header.timecode,
            is_last: header.is_last,
            data: Vec::new(),
        };
        self.frames.push(frame);
        proof {
            assert(self@.frames =~= old(self)@.with_frame(header, name@).frames);
        }
    }

    /// Brings `preview` to the `buffer_size` bytes that the engine is about
    /// to write.
    pub fn prepare_preview_out_buffer(&mut self, buffer_size: usize)
        requires
            buffer_size == old(self)@.basic_info.out_buffer_size(),
        ensures
            final(self)@ == old(self)@.with_preview(buffer_size as nat),
    {
        self.preview.resize(buffer_size, 0);
        proof {
            assert(self.preview@ =~= resized(old(self).preview@, buffer_size as nat));
        }
    }

    /// Brings the `data` of the newest frame to the `buffer_size` bytes that
    /// the engine is about to write.
    pub fn prepare_image_out_buffer(&mut self, buffer_size: usize)
        requires
            buffer_size == old(self)@.basic_info.out_buffer_size(),
            old(self)@.frames.len() > 0,
        ensures
            final(self)@ == old(self)@.with_image(buffer_size as nat),
    {
        let mut newest = self.frames.pop().unwrap();
        let ghost before = newest@;
        newest.data.resize(buffer_size, 0);
        proof {
            assert(newest.data@ =~= resized(before.data, buffer_size as nat));
        }
        self.frames.push(newest);
        proof {
            assert(self@.frames =~= old(self)@.with_image(buffer_size as nat).frames);
        }
    }

    /// Whether a call under `policy` stops at the frame that was just
    /// completed.
    pub fn stops(&self, policy: &RunPolicy) -> (stops: bool)
        ensures
            stops == self@.stops(*policy),
    {
        let count = self.frames.len();
        if count == 0 {
            return false;
        }
        if self.frames[count - 1].is_last {
            return false;
        }
        if policy.stop_on_frame {
            return true;
        }
        match policy.frame_limit {
            Some(limit) => count >= limit,
            None => false,
        }
    }

    /// Starts a call that feeds the session from `data`, under `policy`.
    ///
    /// A session that has completed refuses the call and stays as it is.
    /// Any other session hands its leftover bytes to the window of the new
    /// run, in front of what `data` will bring, and is running from then on.
    /// The first thing to do with the engine is to set its input.
    pub fn proceed_with<T: BufRead>(&mut self, data: T, policy: RunPolicy) -> (started: Result<
        DecodeRun<T>,
        JxlDecodeError,
    >)
        ensures
            !old(self)@.is_partial() ==> {
                &&& started matches Err(e)
                &&& e == JxlDecodeError::AlreadyFinished
                &&& *final(self) == *old(self)
            },
            old(self)@.is_partial() ==> {
                &&& started matches Ok(run)
                &&& run.wf()
                &&& run.policy() == policy
                &&& run.model() == Window::fresh(old(self)@.leftover)
                &&& final(self)@ == old(self)@.with_leftover(Seq::empty()).with_state(
                    SessionState::Running,
                )
            },
    {
        if !self.is_partial() {
            return Err(JxlDecodeError::AlreadyFinished);
        }
        let unread = self.unread_buffer.take().unwrap_or_default();
        self.state = SessionState::Running;
        Ok(DecodeRun { buffer: ContiguousBuffer::new(unread, data), policy })
    }

    /// Starts a call that feeds the session from `data`. See
    /// [`DecodeProgress::proceed_with`]; no limit on frames is set, and the
    /// engine is not asked to flush when the input runs out.
    pub fn proceed<T: BufRead>(&mut self, data: T, allow_partial: bool, stop_on_frame: bool) -> (started:
        Result<DecodeRun<T>, JxlDecodeError>)
        ensures
            !old(self)@.is_partial() ==> {
                &&& started matches Err(e)
                &&& e == JxlDecodeError::AlreadyFinished
                &&& *final(self) == *old(self)
            },
            old(self)@.is_partial() ==> {
                &&& started matches Ok(run)
                &&& run.wf()
                &&& run.policy() == (RunPolicy {
                    allow_partial,
                    stop_on_frame,
                    frame_limit: None,
                    flush_on_eof: false,
                })
                &&& run.model() == Window::fresh(old(self)@.leftover)
                &&& final(self)@ == old(self)@.with_leftover(Seq::empty()).with_state(
                    SessionState::Running,
                )
            },
    {
        self.proceed_with(
            data,
            RunPolicy { allow_partial, stop_on_frame, frame_limit: None, flush_on_eof: false },
        )
    }
}

/// One call on a session: the window that the engine reads from, and the
/// policy of the call.
pub struct DecodeRun<T> {
    buffer: ContiguousBuffer<T>,
    policy: RunPolicy,
}

impl<T> DecodeRun<T> {
    pub closed spec fn wf(&self) -> bool {
        self.buffer.wf()
    }

    /// The window of this run.
    pub closed spec fn model(&self) -> Window {
        self.buffer.model()
    }

    pub closed spec fn policy(&self) -> RunPolicy {
        self.policy
    }

    /// The bytes that the engine has not used yet.
    pub open spec fn view(&self) -> Seq<u8> {
        self.model().unread()
    }

    /// The bytes to hand to the engine as its input, in one piece.
    pub fn window(&self) -> (bytes: &[u8])
        requires
            self.wf(),
        ensures
            bytes@ == self@,
    {
        self.buffer.as_slice()
    }

    /// The policy of this call.
    pub fn run_policy(&self) -> (policy: RunPolicy)
        ensures
            policy == self.policy(),
    {
        self.policy
    }

    /// Whether `event` may be reported to this run on `progress`: it fits the
    /// session, and the engine cannot have left more bytes unused than the
    /// window holds.
    pub open spec fn takes(&self, progress: ProgressView, event: DecodeEvent) -> bool {
        &&& event_fits(progress, event)
        &&& event matches DecodeEvent::NeedMoreInput { remaining } ==> remaining <= self@.len()
        &&& event matches DecodeEvent::InputReleased { remaining } ==> remaining <= self@.len()
    }

    /// Whether `event` may be reported to this run on `progress`.
    pub fn accepts(&self, progress: &DecodeProgress, event: &DecodeEvent) -> (fits: bool)
        requires
            self.wf(),
        ensures
            fits == self.takes(progress@, *event),
    {
        match event {
            DecodeEvent::NeedMoreInput { remaining } => *remaining <= self.buffer.len(),
            DecodeEvent::InputReleased { remaining } => *remaining <= self.buffer.len(),
            DecodeEvent::NeedPreviewOutBuffer { buffer_size } => progress.basic_info.is_out_buffer_size(
                *buffer_size,
            ),
            DecodeEvent::NeedImageOutBuffer { buffer_size } => progress.basic_info.is_out_buffer_size(
                *buffer_size,
            ) && progress.frames.len() > 0,
            _ => true,
        }
    }

    /// Decides how the call goes on once the window has tried to fetch more
    /// input: `more` says whether it got any.
    pub fn after_fetch(&self, progress: &mut DecodeProgress, more: Result<(), FillError>) -> (next:
        Result<DecodeAction, JxlDecodeError>)
        ensures
            (final(progress)@, next) == answer_fetch(old(progress)@, self.policy(), more is Ok),
    {
        match more {
            Ok(_) => {
                progress.state = SessionState::Running;
                Ok(DecodeAction::SetInput)
            },
            Err(_) => {
                if self.policy.allow_partial {
                    progress.state = SessionState::Suspended;
                    Ok(DecodeAction::Suspend { flush: self.policy.flush_on_eof })
                } else {
                    progress.state = SessionState::Failed;
                    Err(JxlDecodeError::InputNotComplete)
                }
            },
        }
    }

    /// Marks the bytes that the engine used, all of the window but the last
    /// `remaining`, as consumed.
    fn retire(&mut self, remaining: usize)
        requires
            old(self).wf(),
            remaining <= old(self)@.len(),
        ensures
            final(self).wf(),
            final(self).policy() == old(self).policy(),
            final(self).model() == old(self).model().consume(
                (old(self)@.len() - remaining) as nat,
            ),
    {
        let consumed = self.buffer.len() - remaining;
        self.buffer.consume(consumed);
    }
}

impl<T: BufRead> DecodeRun<T> {
    /// Answers one report of the engine.
    ///
    /// A session that has completed refuses every report and stays as it is.
    /// Any other session answers as [`answer`] says, and the window of the
    /// call becomes what [`window_after`] says. When the engine needs more
    /// input, the window fetches it; what the fetch brings is the source's to
    /// decide, and shows in the stream of the window afterwards.
    pub fn step(&mut self, progress: &mut DecodeProgress, event: DecodeEvent) -> (next: Result<
        DecodeAction,
        JxlDecodeError,
    >)
        requires
            old(self).wf(),
            old(progress)@.is_partial() ==> old(self).takes(old(progress)@, event),
        ensures
            final(self).wf(),
            final(self).policy() == old(self).policy(),
            !old(progress)@.is_partial() ==> {
                &&& next == Err::<DecodeAction, JxlDecodeError>(JxlDecodeError::AlreadyFinished)
                &&& *final(progress) == *old(progress)
                &&& final(self).model() == old(self).model()
            },
            old(progress)@.is_partial() ==> {
                let chunk = final(self).model().stream.skip(old(self).model().stream.len() as int);
                &&& final(self).model() == window_after(old(self).model(), event, chunk)
                &&& (final(progress)@, next) == answer(
                    old(progress)@,
                    old(self).policy(),
                    event,
                    chunk.len() > 0,
                )
            },
    {
        if !progress.is_partial() {
            return Err(JxlDecodeError::AlreadyFinished);
        }
        match event {
            DecodeEvent::NeedMoreInput { remaining } => {
                self.retire(remaining);
                let more = self.buffer.more_buf();
                self.after_fetch(progress, more)
            },
            DecodeEvent::BasicInfo { info } => {
                progress.read_basic_info(info);
                Ok(DecodeAction::Process)
            },
            DecodeEvent::ColorEncoding { icc_size } => {
                progress.read_color_encoding(icc_size);
                Ok(DecodeAction::WriteColorProfile)
            },
            DecodeEvent::Frame { header, name } => {
                progress.prepare_frame(header, name);
                Ok(DecodeAction::Process)
            },
            DecodeEvent::NeedPreviewOutBuffer { buffer_size } => {
                progress.prepare_preview_out_buffer(buffer_size);
                Ok(DecodeAction::SetPreviewOutBuffer)
            },
            DecodeEvent::NeedImageOutBuffer { buffer_size } => {
                progress.prepare_image_out_buffer(buffer_size);
                Ok(DecodeAction::SetImageOutBuffer)
            },
            DecodeEvent::FullImage => {
                if progress.stops(&self.policy) {
                    Ok(DecodeAction::ReleaseInput)
                } else {
                    Ok(DecodeAction::Process)
                }
            },
            DecodeEvent::InputReleased { remaining } => {
                self.retire(remaining);
                progress.state = SessionState::PartialStop;
                Ok(DecodeAction::Stop)
            },
            DecodeEvent::Success => {
                progress.state = SessionState::Completed;
                Ok(DecodeAction::Complete)
            },
            DecodeEvent::Error => {
                progress.state = SessionState::Failed;
                Err(JxlDecodeError::General)
            },
        }
    }

    /// Ends the call: the bytes that the engine has not used are kept in the
    /// session, for the next call to start with.
    pub fn finish(self, progress: &mut DecodeProgress)
        requires
            self.wf(),
        ensures
            final(progress)@ == old(progress)@.with_leftover(self@),
    {
        progress.unread_buffer = Some(self.buffer.take_unread());
    }
}

} // verus!
