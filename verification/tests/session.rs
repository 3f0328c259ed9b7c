use std::io::BufReader;

use kagamijxl::decode::config::get_event_subscription_flags;
use kagamijxl::decode::config::Decoder;
use kagamijxl::decode::config::EventSubscription;
use kagamijxl::decode::config::RunPolicy;
use kagamijxl::decode::session::DecodeAction;
use kagamijxl::decode::session::DecodeEvent;
use kagamijxl::decode::session::DecodeProgress;
use kagamijxl::decode::session::SessionState;
use kagamijxl::decode::types::BasicInfo;
use kagamijxl::decode::types::DataType;
use kagamijxl::decode::types::Endianness;
use kagamijxl::decode::types::Frame;
use kagamijxl::decode::types::FrameHeader;
use kagamijxl::decode::types::JxlDecodeError;
use kagamijxl::decode::types::PixelFormat;

fn info_3x3() -> BasicInfo {
    let mut info = BasicInfo::default();
    info.xsize = 3;
    info.ysize = 3;
    info.bits_per_sample = 8;
    info.orientation = 1;
    info
}

fn header(name_length: u32, is_last: bool) -> FrameHeader {
    FrameHeader { duration: 0, timecode: 0, name_length, is_last }
}

#[test]
fn session_starts_fresh_and_empty() {
    let progress = DecodeProgress::new();
    assert_eq!(progress.session_state(), SessionState::Fresh);
    assert!(progress.is_partial());
    assert_eq!(progress.basic_info, BasicInfo::default());
    assert_eq!(progress.basic_info.xsize, 0);
    assert!(progress.color_profile.is_empty());
    assert!(progress.preview.is_empty());
    assert!(progress.frames.is_empty());
}

#[test]
fn session_decodes_one_frame_to_completion() {
    let stream = vec![0xffu8, 0x0a, 1, 2, 3, 4];
    let mut progress = DecodeProgress::new();
    let mut run = progress.proceed(&stream[..], false, false).unwrap();
    assert_eq!(progress.session_state(), SessionState::Running);
    assert_eq!(run.window(), []);

    let next = run.step(&mut progress, DecodeEvent::NeedMoreInput { remaining: 0 });
    assert_eq!(next, Ok(DecodeAction::SetInput));
    assert_eq!(run.window(), [0xff, 0x0a, 1, 2, 3, 4]);

    let next = run.step(&mut progress, DecodeEvent::BasicInfo { info: info_3x3() });
    assert_eq!(next, Ok(DecodeAction::Process));
    assert_eq!(progress.basic_info, info_3x3());
    assert_eq!(progress.info(), info_3x3());

    let next = run.step(&mut progress, DecodeEvent::ColorEncoding { icc_size: 5 });
    assert_eq!(next, Ok(DecodeAction::WriteColorProfile));
    assert_eq!(progress.color_profile, [0, 0, 0, 0, 0]);

    let next = run.step(
        &mut progress,
        DecodeEvent::Frame { header: header(0, true), name: vec![0] },
    );
    assert_eq!(next, Ok(DecodeAction::Process));
    assert_eq!(progress.frames.len(), 1);
    assert_eq!(progress.frames[0].name, "");
    assert!(progress.frames[0].is_last);
    assert!(progress.frames[0].data.is_empty());

    let next = run.step(&mut progress, DecodeEvent::NeedImageOutBuffer { buffer_size: 36 });
    assert_eq!(next, Ok(DecodeAction::SetImageOutBuffer));
    assert_eq!(progress.frames[0].data, [0u8; 36]);

    let next = run.step(&mut progress, DecodeEvent::FullImage);
    assert_eq!(next, Ok(DecodeAction::Process));

    let next = run.step(&mut progress, DecodeEvent::Success);
    assert_eq!(next, Ok(DecodeAction::Complete));
    assert_eq!(progress.session_state(), SessionState::Completed);
    assert!(!progress.is_partial());
    run.finish(&mut progress);
    assert_eq!(progress.frames.len(), 1);
}

#[test]
fn session_strict_call_fails_when_input_runs_out() {
    let stream = vec![0xffu8, 0x0a];
    let mut progress = DecodeProgress::new();
    let mut run = progress.proceed(&stream[..], false, false).unwrap();
    let next = run.step(&mut progress, DecodeEvent::NeedMoreInput { remaining: 0 });
    assert_eq!(next, Ok(DecodeAction::SetInput));
    assert_eq!(run.window(), [0xff, 0x0a]);
    let next = run.step(&mut progress, DecodeEvent::NeedMoreInput { remaining: 0 });
    assert_eq!(next, Err(JxlDecodeError::InputNotComplete));
    assert_eq!(progress.session_state(), SessionState::Failed);
    assert!(progress.is_partial());
}

#[test]
fn session_partial_call_suspends_when_input_runs_out() {
    let stream = vec![0xffu8, 0x0a];
    let mut progress = DecodeProgress::new();
    let mut run = progress.proceed(&stream[..], true, false).unwrap();
    let next = run.step(&mut progress, DecodeEvent::NeedMoreInput { remaining: 0 });
    assert_eq!(next, Ok(DecodeAction::SetInput));
    let next = run.step(&mut progress, DecodeEvent::NeedMoreInput { remaining: 1 });
    assert_eq!(next, Ok(DecodeAction::Suspend { flush: false }));
    assert_eq!(progress.session_state(), SessionState::Suspended);
    assert!(progress.is_partial());
    assert_eq!(progress.frames.len(), 0);
    assert_eq!(run.window(), [0x0a]);
    run.finish(&mut progress);
}

#[test]
fn session_partial_call_asks_for_flush_when_configured() {
    let stream: Vec<u8> = Vec::new();
    let mut config = Decoder::new();
    config.allow_partial = true;
    config.flush_on_eof = true;
    let mut progress = DecodeProgress::new();
    let mut run = progress.proceed_with(&stream[..], config.policy()).unwrap();
    assert_eq!(
        run.run_policy(),
        RunPolicy { allow_partial: true, stop_on_frame: false, frame_limit: None, flush_on_eof: true }
    );
    let next = run.step(&mut progress, DecodeEvent::NeedMoreInput { remaining: 0 });
    assert_eq!(next, Ok(DecodeAction::Suspend { flush: true }));
}

#[test]
fn session_resumes_with_what_was_left() {
    let stream: Vec<u8> = (1u8..=10).collect();
    let mut progress = DecodeProgress::new();

    let mut run = progress.proceed(&stream[..4], true, false).unwrap();
    assert_eq!(run.step(&mut progress, DecodeEvent::NeedMoreInput { remaining: 0 }), Ok(DecodeAction::SetInput));
    assert_eq!(run.window(), [1, 2, 3, 4]);
    assert_eq!(
        run.step(&mut progress, DecodeEvent::NeedMoreInput { remaining: 3 }),
        Ok(DecodeAction::Suspend { flush: false })
    );
    run.finish(&mut progress);
    assert!(progress.is_partial());

    let mut run = progress.proceed(&stream[4..], true, false).unwrap();
    assert_eq!(progress.session_state(), SessionState::Running);
    assert_eq!(run.window(), [2, 3, 4]);
    assert_eq!(run.step(&mut progress, DecodeEvent::NeedMoreInput { remaining: 2 }), Ok(DecodeAction::SetInput));
    assert_eq!(run.window(), [3, 4, 5, 6, 7, 8, 9, 10]);
    assert_eq!(run.step(&mut progress, DecodeEvent::Success), Ok(DecodeAction::Complete));
    run.finish(&mut progress);
    assert!(!progress.is_partial());
}

#[test]
fn session_in_chunks_feeds_the_engine_the_same_bytes() {
    let stream: Vec<u8> = (0u8..30).collect();
    let mut progress = DecodeProgress::new();
    let reader = BufReader::with_capacity(4, &stream[..]);
    let mut run = progress.proceed(reader, false, false).unwrap();
    let mut fed: Vec<u8> = Vec::new();
    let mut unused = 0usize;
    loop {
        match run.step(&mut progress, DecodeEvent::NeedMoreInput { remaining: unused }) {
            Ok(DecodeAction::SetInput) => {
                // The engine takes all of its input but the last three bytes.
                let window = run.window();
                unused = window.len().min(3);
                fed.extend_from_slice(&window[..window.len() - unused]);
            }
            Err(JxlDecodeError::InputNotComplete) => break,
            other => panic!("unexpected answer {:?}", other),
        }
    }
    assert_eq!(fed, &stream[..27]);
    assert_eq!(run.window(), [27, 28, 29]);
}

#[test]
fn session_refuses_calls_once_completed() {
    let stream = vec![1u8, 2];
    let mut progress = DecodeProgress::new();
    let mut run = progress.proceed(&stream[..], true, false).unwrap();
    run.step(&mut progress, DecodeEvent::BasicInfo { info: info_3x3() }).unwrap();
    run.step(&mut progress, DecodeEvent::Frame { header: header(1, true), name: vec![b'a', 0] })
        .unwrap();
    run.step(&mut progress, DecodeEvent::NeedImageOutBuffer { buffer_size: 36 }).unwrap();
    progress.frames[0].data[0] = 0x25;
    assert_eq!(run.step(&mut progress, DecodeEvent::Success), Ok(DecodeAction::Complete));
    assert!(!progress.is_partial());

    let later = run.step(&mut progress, DecodeEvent::Frame { header: header(0, false), name: vec![0] });
    assert_eq!(later, Err(JxlDecodeError::AlreadyFinished));
    let later = run.step(&mut progress, DecodeEvent::Error);
    assert_eq!(later, Err(JxlDecodeError::AlreadyFinished));
    run.finish(&mut progress);

    let more = vec![0xffu8];
    let err = progress.proceed(&more[..], true, false).err().unwrap();
    assert!(matches!(err, JxlDecodeError::AlreadyFinished));
    let err = progress.proceed_with(&more[..], Decoder::new().policy()).err().unwrap();
    assert!(matches!(err, JxlDecodeError::AlreadyFinished));
    assert_eq!(progress.session_state(), SessionState::Completed);
    assert_eq!(progress.frames.len(), 1);
    assert_eq!(progress.frames[0].name, "a");
    assert_eq!(progress.frames[0].data.len(), 36);
    assert_eq!(progress.frames[0].data[0], 0x25);
}

#[test]
fn session_engine_error_is_fatal_for_the_call() {
    let stream = vec![1u8];
    let mut progress = DecodeProgress::new();
    let mut run = progress.proceed(&stream[..], true, false).unwrap();
    assert_eq!(run.step(&mut progress, DecodeEvent::Error), Err(JxlDecodeError::General));
    assert_eq!(progress.session_state(), SessionState::Failed);
    assert!(progress.is_partial());
}

#[test]
fn session_stops_on_frame_that_is_not_the_last() {
    let stream: Vec<u8> = (0u8..8).collect();
    let mut progress = DecodeProgress::new();
    let mut run = progress.proceed(&stream[..], false, true).unwrap();
    run.step(&mut progress, DecodeEvent::NeedMoreInput { remaining: 0 }).unwrap();
    run.step(&mut progress, DecodeEvent::Frame { header: header(0, false), name: vec![0] }).unwrap();
    assert_eq!(run.step(&mut progress, DecodeEvent::FullImage), Ok(DecodeAction::ReleaseInput));
    assert_eq!(progress.session_state(), SessionState::Running);
    assert_eq!(run.step(&mut progress, DecodeEvent::InputReleased { remaining: 5 }), Ok(DecodeAction::Stop));
    assert_eq!(progress.session_state(), SessionState::PartialStop);
    assert!(progress.is_partial());
    assert_eq!(run.window(), [3, 4, 5, 6, 7]);
    run.finish(&mut progress);

    let rest: Vec<u8> = Vec::new();
    let mut run = progress.proceed(&rest[..], false, true).unwrap();
    assert_eq!(run.window(), [3, 4, 5, 6, 7]);
    run.step(&mut progress, DecodeEvent::Frame { header: header(0, true), name: vec![0] }).unwrap();
    assert_eq!(run.step(&mut progress, DecodeEvent::FullImage), Ok(DecodeAction::Process));
    assert_eq!(progress.frames.len(), 2);
}

#[test]
fn session_runs_on_without_a_stop_policy() {
    let stream: Vec<u8> = Vec::new();
    let mut progress = DecodeProgress::new();
    let mut run = progress.proceed(&stream[..], false, false).unwrap();
    run.step(&mut progress, DecodeEvent::Frame { header: header(0, false), name: vec![0] }).unwrap();
    assert_eq!(run.step(&mut progress, DecodeEvent::FullImage), Ok(DecodeAction::Process));
}

#[test]
fn session_without_frames_never_stops_at_a_frame() {
    let stream: Vec<u8> = Vec::new();
    let mut progress = DecodeProgress::new();
    let mut run = progress.proceed(&stream[..], false, true).unwrap();
    assert_eq!(run.step(&mut progress, DecodeEvent::FullImage), Ok(DecodeAction::Process));
}

#[test]
fn session_stops_at_frame_limit() {
    let stream: Vec<u8> = Vec::new();
    let policy =
        RunPolicy { allow_partial: false, stop_on_frame: false, frame_limit: Some(2), flush_on_eof: false };
    let mut progress = DecodeProgress::new();
    let mut run = progress.proceed_with(&stream[..], policy).unwrap();
    run.step(&mut progress, DecodeEvent::Frame { header: header(0, false), name: vec![0] }).unwrap();
    assert!(!progress.stops(&policy));
    assert_eq!(run.step(&mut progress, DecodeEvent::FullImage), Ok(DecodeAction::Process));
    run.step(&mut progress, DecodeEvent::Frame { header: header(0, false), name: vec![0] }).unwrap();
    assert!(progress.stops(&policy));
    assert_eq!(run.step(&mut progress, DecodeEvent::FullImage), Ok(DecodeAction::ReleaseInput));
}

#[test]
fn session_accepts_only_what_fits() {
    let stream = vec![1u8, 2, 3];
    let mut progress = DecodeProgress::new();
    let mut run = progress.proceed(&stream[..], false, false).unwrap();
    run.step(&mut progress, DecodeEvent::NeedMoreInput { remaining: 0 }).unwrap();
    assert!(run.accepts(&progress, &DecodeEvent::NeedMoreInput { remaining: 3 }));
    assert!(!run.accepts(&progress, &DecodeEvent::NeedMoreInput { remaining: 4 }));
    assert!(run.accepts(&progress, &DecodeEvent::InputReleased { remaining: 0 }));
    assert!(!run.accepts(&progress, &DecodeEvent::InputReleased { remaining: 4 }));
    assert!(run.accepts(&progress, &DecodeEvent::FullImage));
    assert!(run.accepts(&progress, &DecodeEvent::NeedPreviewOutBuffer { buffer_size: 0 }));
    assert!(!run.accepts(&progress, &DecodeEvent::NeedImageOutBuffer { buffer_size: 0 }));
    run.step(&mut progress, DecodeEvent::BasicInfo { info: info_3x3() }).unwrap();
    assert!(run.accepts(&progress, &DecodeEvent::NeedPreviewOutBuffer { buffer_size: 36 }));
    assert!(!run.accepts(&progress, &DecodeEvent::NeedPreviewOutBuffer { buffer_size: 35 }));
    assert!(!run.accepts(&progress, &DecodeEvent::NeedImageOutBuffer { buffer_size: 36 }));
    run.step(&mut progress, DecodeEvent::Frame { header: header(0, true), name: vec![0] }).unwrap();
    assert!(run.accepts(&progress, &DecodeEvent::NeedImageOutBuffer { buffer_size: 36 }));
    assert!(!run.accepts(&progress, &DecodeEvent::NeedImageOutBuffer { buffer_size: 9 }));
}

#[test]
fn session_preview_buffer_is_sized_and_zeroed() {
    let mut progress = DecodeProgress::new();
    progress.read_basic_info(info_3x3());
    progress.prepare_preview_out_buffer(36);
    assert_eq!(progress.preview, [0u8; 36]);
}

#[test]
fn session_image_buffer_goes_to_newest_frame_and_keeps_what_it_has() {
    let mut progress = DecodeProgress::new();
    let mut info = BasicInfo::default();
    info.xsize = 1;
    info.ysize = 2;
    progress.read_basic_info(info);
    progress.prepare_frame(header(0, false), vec![0]);
    progress.prepare_frame(header(0, true), vec![0]);
    progress.frames[1].data = vec![5, 6, 7];
    progress.prepare_image_out_buffer(8);
    assert!(progress.frames[0].data.is_empty());
    assert_eq!(progress.frames[1].data, [5, 6, 7, 0, 0, 0, 0, 0]);
    assert!(progress.frames[1].is_last);
}

#[test]
fn session_color_profile_is_cut_or_filled_to_size() {
    let mut progress = DecodeProgress::new();
    progress.color_profile = vec![1, 2, 3, 4];
    progress.read_color_encoding(2);
    assert_eq!(progress.color_profile, [1, 2]);
    progress.read_color_encoding(5);
    assert_eq!(progress.color_profile, [1, 2, 0, 0, 0]);
    progress.read_color_encoding(0);
    assert_eq!(progress.color_profile, []);
}

#[test]
fn session_frame_takes_header_and_name() {
    let mut progress = DecodeProgress::new();
    progress.prepare_frame(
        FrameHeader { duration: 12, timecode: 34, name_length: 3, is_last: false },
        vec![b'f', b'o', b'x', 0],
    );
    assert_eq!(progress.frames.len(), 1);
    assert_eq!(progress.decoded_frames().len(), 1);
    assert_eq!(progress.decoded_frames()[0].name, "fox");
    assert_eq!(progress.frames[0].name, "fox");
    assert_eq!(progress.frames[0].duration, 12);
    assert_eq!(progress.frames[0].timecode, 34);
    assert!(!progress.frames[0].is_last);
    assert!(progress.frames[0].data.is_empty());
}

#[test]
fn session_frame_name_replaces_what_is_not_text() {
    let mut progress = DecodeProgress::new();
    progress.prepare_frame(header(2, true), vec![b'a', 0xff, 0]);
    assert_eq!(progress.frames[0].name, "a\u{fffd}");
    progress.prepare_frame(header(0, true), Vec::new());
    assert_eq!(progress.frames[1].name, "");
    progress.prepare_frame(header(2, true), vec![0xc3, 0xa9, 0]);
    assert_eq!(progress.frames[2].name, "\u{e9}");
}

#[test]
fn frame_header_name_buffer_has_room_for_terminator() {
    assert_eq!(header(0, false).name_buffer_len(), 1);
    assert_eq!(header(5, false).name_buffer_len(), 6);
    assert_eq!(header(1071, false).name_buffer_len(), 1072);
}

#[test]
fn frame_default_is_empty() {
    let frame = Frame::default();
    assert_eq!(frame.name, "");
    assert_eq!(frame.duration, 0);
    assert_eq!(frame.timecode, 0);
    assert!(!frame.is_last);
    assert!(frame.data.is_empty());
}

#[test]
fn basic_info_out_buffer_size_is_four_bytes_per_pixel() {
    assert!(info_3x3().is_out_buffer_size(36));
    assert!(!info_3x3().is_out_buffer_size(9));
    assert!(!info_3x3().is_out_buffer_size(37));
    let mut info = BasicInfo::default();
    assert!(info.is_out_buffer_size(0));
    info.xsize = 1404;
    info.ysize = 936;
    assert!(info.is_out_buffer_size(5256576));
    info.xsize = 65536;
    info.ysize = 65536;
    assert!(!info.is_out_buffer_size(0));
    assert!(info.is_out_buffer_size(17179869184));
}

#[test]
fn pixel_format_is_rgba8() {
    let format = PixelFormat::rgba8();
    assert_eq!(format.num_channels, 4);
    assert_eq!(format.data_type, DataType::Uint8);
    assert_eq!(format.endianness, Endianness::Native);
    assert_eq!(format.align, 0);
}

#[test]
fn decoder_default_has_every_toggle_off() {
    let decoder = Decoder::default();
    assert_eq!(decoder.keep_orientation, None);
    assert!(!decoder.need_color_profile);
    assert!(!decoder.need_optional_preview);
    assert!(!decoder.no_full_frame);
    assert!(!decoder.no_full_image);
    assert!(!decoder.stop_on_frame);
    assert_eq!(decoder.frame_limit, None);
    assert!(!decoder.allow_partial);
    assert!(!decoder.flush_on_eof);
    assert_eq!(
        Decoder::new().policy(),
        RunPolicy { allow_partial: false, stop_on_frame: false, frame_limit: None, flush_on_eof: false }
    );
}

#[test]
fn decoder_subscription_follows_the_toggles() {
    let mut decoder = Decoder::default();
    assert_eq!(
        get_event_subscription_flags(&decoder),
        EventSubscription {
            basic_info: true,
            color_encoding: false,
            preview_image: false,
            frame: true,
            full_image: true
        }
    );
    decoder.need_color_profile = true;
    decoder.need_optional_preview = true;
    decoder.no_full_image = true;
    assert_eq!(
        get_event_subscription_flags(&decoder),
        EventSubscription {
            basic_info: true,
            color_encoding: true,
            preview_image: true,
            frame: true,
            full_image: false
        }
    );
    decoder.no_full_image = false;
    decoder.no_full_frame = true;
    assert_eq!(
        get_event_subscription_flags(&decoder),
        EventSubscription {
            basic_info: true,
            color_encoding: true,
            preview_image: true,
            frame: false,
            full_image: false
        }
    );
}

#[test]
fn decoder_setup_carries_orientation_and_format() {
    let mut decoder = Decoder::new();
    decoder.keep_orientation = Some(true);
    decoder.stop_on_frame = true;
    decoder.frame_limit = Some(3);
    let setup = decoder.setup();
    assert_eq!(setup.keep_orientation, Some(true));
    assert_eq!(setup.subscription, get_event_subscription_flags(&decoder));
    assert_eq!(setup.pixel_format, PixelFormat::rgba8());
    assert_eq!(
        decoder.policy(),
        RunPolicy { allow_partial: false, stop_on_frame: true, frame_limit: Some(3), flush_on_eof: false }
    );
}
