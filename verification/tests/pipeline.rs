use mirrorcast::frame::{FrameError, VideoFormat, VideoFrame};
use mirrorcast::renderer::{
    AspectRatioMode, ScalingMode, VideoRenderer, DEFAULT_QUEUE_CAPACITY, TARGET_FPS,
};

fn rgba(width: u32, height: u32, fill: u8) -> VideoFrame {
    VideoFrame {
        data: vec![fill; (4 * width * height) as usize],
        width,
        height,
        format: VideoFormat::RGBA32,
        timestamp: 0,
    }
}

fn short_yuv() -> VideoFrame {
    VideoFrame { data: vec![128; 5], width: 2, height: 2, format: VideoFormat::YUV420P, timestamp: 0 }
}

#[test]
fn test_video_renderer_creation() {
    let renderer = VideoRenderer::new();
    let statistics = renderer.get_statistics();
    assert_eq!(statistics.video_resolution, (1080, 1920));
    assert_eq!(statistics.scaling_mode, ScalingMode::Fit);
    assert_eq!(statistics.frames_received, 0);
}

#[test]
fn new_pipeline_is_empty() {
    let renderer = VideoRenderer::new();
    let statistics = renderer.get_statistics();
    assert!(renderer.get_current_frame().is_none());
    assert_eq!(renderer.queued_frames(), 0);
    assert_eq!(statistics.frame_drops, 0);
    assert_eq!(statistics.conversion_errors, 0);
    assert_eq!(statistics.current_fps, 0);
    assert_eq!(statistics.target_fps, TARGET_FPS);
    assert_eq!(statistics.target_fps, 30_000);
    assert_eq!(statistics.display_resolution, (800, 600));
    assert_eq!(DEFAULT_QUEUE_CAPACITY, 8);
}

#[test]
fn one_frame_too_many_drops_the_newest() {
    let capacity = 3;
    let mut renderer = VideoRenderer::with_capacity(capacity);
    for i in 0..capacity {
        assert!(renderer.submit_frame(rgba(1, 1, i as u8), 10 * i as u64));
    }
    assert!(!renderer.submit_frame(rgba(1, 1, 99), 1000));
    let statistics = renderer.get_statistics();
    assert_eq!(statistics.frame_drops, 1);
    assert_eq!(statistics.frames_received, 0);
    assert_eq!(renderer.queued_frames(), capacity);

    renderer.update();
    let statistics = renderer.get_statistics();
    assert_eq!(statistics.frame_drops, 1);
    assert_eq!(statistics.frames_received, capacity as u64);
    assert_eq!(renderer.queued_frames(), 0);
    // the newest queued frame is the picture; the dropped one never shows
    assert_eq!(renderer.get_current_frame().unwrap().pixels, vec![2u8; 4]);
}

#[test]
fn queue_of_no_capacity_drops_everything() {
    let mut renderer = VideoRenderer::with_capacity(0);
    assert!(!renderer.submit_frame(rgba(1, 1, 1), 0));
    assert!(!renderer.submit_frame(rgba(1, 1, 2), 1));
    assert_eq!(renderer.get_statistics().frame_drops, 2);
    renderer.update();
    assert!(renderer.get_current_frame().is_none());
}

#[test]
fn malformed_frame_leaves_the_picture() {
    let mut renderer = VideoRenderer::new();
    assert_eq!(renderer.receive_frame_at(rgba(2, 1, 7), 100), Ok(()));
    assert_eq!(renderer.receive_frame_at(short_yuv(), 200), Err(FrameError::MalformedFrame));
    let picture = renderer.get_current_frame().unwrap();
    assert_eq!(picture.pixels, vec![7u8; 8]);
    assert_eq!((picture.width, picture.height), (2, 1));
    let statistics = renderer.get_statistics();
    assert_eq!(statistics.frames_received, 1);
    assert_eq!(statistics.conversion_errors, 1);
    assert_eq!(statistics.video_resolution, (2, 1));
}

#[test]
fn yuv_frame_one_byte_short_leaves_the_picture() {
    let mut renderer = VideoRenderer::new();
    renderer.receive_frame_at(rgba(2, 1, 7), 100).unwrap();
    let short = VideoFrame {
        data: vec![128; 39],
        width: 3,
        height: 9,
        format: VideoFormat::YUV420P,
        timestamp: 0,
    };
    assert_eq!(renderer.receive_frame_at(short, 200), Err(FrameError::MalformedFrame));
    assert_eq!(renderer.get_current_frame().unwrap().pixels, vec![7u8; 8]);
    assert_eq!(renderer.get_statistics().frames_received, 1);
    assert_eq!(renderer.get_statistics().video_resolution, (2, 1));
    let whole = VideoFrame {
        data: vec![128; 40],
        width: 3,
        height: 9,
        format: VideoFormat::YUV420P,
        timestamp: 0,
    };
    assert_eq!(renderer.receive_frame(whole), Ok(()));
    assert_eq!(renderer.get_statistics().video_resolution, (3, 9));
}

#[test]
fn malformed_frame_in_the_queue_does_not_stop_the_rest() {
    let mut renderer = VideoRenderer::new();
    assert!(renderer.submit_frame(rgba(1, 1, 1), 0));
    assert!(renderer.submit_frame(short_yuv(), 10));
    assert!(renderer.submit_frame(rgba(1, 1, 3), 20));
    renderer.update();
    let statistics = renderer.get_statistics();
    assert_eq!(statistics.frames_received, 2);
    assert_eq!(statistics.conversion_errors, 1);
    assert_eq!(renderer.get_current_frame().unwrap().pixels, vec![3u8; 4]);
}

#[test]
fn picture_follows_the_resolution_of_the_latest_frame() {
    let mut renderer = VideoRenderer::new();
    renderer.receive_frame_at(rgba(2, 2, 1), 0).unwrap();
    assert_eq!(renderer.get_statistics().video_resolution, (2, 2));
    renderer.receive_frame_at(rgba(3, 1, 2), 5).unwrap();
    let picture = renderer.get_current_frame().unwrap();
    assert_eq!((picture.width, picture.height), (3, 1));
    assert_eq!(picture.pixels.len(), 12);
    assert_eq!(renderer.get_statistics().video_resolution, (3, 1));
}

#[test]
fn frame_rate_comes_from_the_last_two_arrivals() {
    let mut renderer = VideoRenderer::new();
    renderer.receive_frame_at(rgba(1, 1, 0), 1000).unwrap();
    assert_eq!(renderer.get_statistics().current_fps, 0);
    renderer.receive_frame_at(rgba(1, 1, 0), 1040).unwrap();
    // 40 ms apart: 25 frames per second
    assert_eq!(renderer.get_statistics().current_fps, 25_000);
    renderer.receive_frame_at(rgba(1, 1, 0), 1073).unwrap();
    // 33 ms apart: 30.303 frames per second
    assert_eq!(renderer.get_statistics().current_fps, 30_303);
    renderer.receive_frame_at(rgba(1, 1, 0), 1073).unwrap();
    assert_eq!(renderer.get_statistics().current_fps, 0);
}

#[test]
fn receive_frame_reads_the_clock() {
    let mut renderer = VideoRenderer::new();
    assert_eq!(renderer.receive_frame(rgba(1, 1, 5)), Ok(()));
    assert_eq!(renderer.receive_frame(short_yuv()), Err(FrameError::MalformedFrame));
    assert_eq!(renderer.get_statistics().frames_received, 1);
    assert_eq!(renderer.get_current_frame().unwrap().pixels, vec![5u8; 4]);
}

#[test]
fn modes_can_be_set() {
    let mut renderer = VideoRenderer::new();
    renderer.set_scaling_mode(ScalingMode::Stretch);
    renderer.set_aspect_ratio_mode(AspectRatioMode::Ignore);
    renderer.set_display_resolution(1280, 720);
    assert_eq!(renderer.get_statistics().scaling_mode, ScalingMode::Stretch);
    assert_eq!(renderer.get_statistics().display_resolution, (1280, 720));
}

#[test]
fn reset_starts_over_but_keeps_settings() {
    let mut renderer = VideoRenderer::with_capacity(1);
    renderer.set_scaling_mode(ScalingMode::Fill);
    renderer.receive_frame_at(rgba(2, 2, 1), 0).unwrap();
    renderer.submit_frame(rgba(1, 1, 1), 1);
    renderer.submit_frame(rgba(1, 1, 1), 2);
    renderer.reset();
    let statistics = renderer.get_statistics();
    assert_eq!(statistics.frames_received, 0);
    assert_eq!(statistics.frame_drops, 0);
    assert_eq!(statistics.video_resolution, (1080, 1920));
    assert_eq!(statistics.scaling_mode, ScalingMode::Fill);
    assert_eq!(renderer.queued_frames(), 0);
    assert!(renderer.get_current_frame().is_none());
    // the capacity stays
    assert!(renderer.submit_frame(rgba(1, 1, 1), 3));
    assert!(!renderer.submit_frame(rgba(1, 1, 1), 4));
}
