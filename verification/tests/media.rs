use tui_image_viewer::ascii::convert;
use tui_image_viewer::cache::FrameCache;
use tui_image_viewer::frame::Frame;
use tui_image_viewer::playback::{AdvanceStatus, PlaybackController, PlaybackState};
use tui_image_viewer::quality::{ImageQuality, ResampleFilter};
use tui_image_viewer::source::{
    classify_source, frame_number_of, order_frame_files, ImageError, MediaKind, VideoMetadata,
};
use tui_image_viewer::widget::ImageWidget;

fn gray_frame(width: u32, height: u32, value: u8) -> Frame {
    Frame::uniform(width, height, value).expect("dimensions are in range")
}

fn ramp_of(quality: ImageQuality) -> Vec<char> {
    quality.get_ascii_chars().chars().collect()
}

#[test]
fn test_image_widget_creation() {
    let widget = ImageWidget::new();
    assert!(widget.current_image.is_none());
    assert!(widget.source.bulk_frames.is_empty());
    let (current, _, playing) = widget.get_playback_info();
    assert_eq!(current, 0);
    assert!(!playing);
}

#[test]
fn test_quality_settings() {
    assert!(matches!(ImageQuality::Low.get_filter(), ResampleFilter::Nearest));
    assert!(matches!(ImageQuality::High.get_filter(), ResampleFilter::Lanczos3));
}

#[test]
fn test_playback_info() {
    let widget = ImageWidget::new();
    let (current, total, playing) = widget.get_playback_info();
    assert_eq!(current, 0);
    assert_eq!(total, 0);
    assert!(!playing);
}

#[test]
fn test_frame_rate_setting() {
    let mut widget = ImageWidget::new();
    widget.set_frame_rate(30_000);
    assert_eq!(widget.frame_rate(), 30_000);
}

#[test]
fn ramp_lengths_and_filter_costs_are_ordered() {
    let low = ramp_of(ImageQuality::Low);
    let medium = ramp_of(ImageQuality::Medium);
    let high = ramp_of(ImageQuality::High);
    assert_eq!(low.len(), 10);
    assert_eq!(medium.len(), 11);
    assert_eq!(high.len(), 70);
    assert!(low.len() <= medium.len() && medium.len() <= high.len());
    let cheap = ImageQuality::Low.get_filter().cost();
    let mid = ImageQuality::Medium.get_filter().cost();
    let costly = ImageQuality::High.get_filter().cost();
    assert!(cheap < mid && mid < costly);
    assert_eq!(cheap, 0);
    assert_eq!(costly, 2);
}

#[test]
fn all_white_frame_converts_to_brightest_character() {
    for quality in [ImageQuality::Low, ImageQuality::Medium, ImageQuality::High] {
        let ramp = ramp_of(quality);
        let brightest = *ramp.last().unwrap();
        for (w, h) in [(1u32, 1u32), (3, 2), (7, 5)] {
            let frame = gray_frame(16, 12, 255);
            let grid = convert(&frame, w, h, quality);
            assert_eq!(grid.len(), h as usize);
            for row in &grid {
                assert_eq!(row.len(), w as usize);
                for &cell in row {
                    assert_eq!(cell, brightest);
                }
            }
        }
    }
}

#[test]
fn all_black_frame_converts_to_darkest_character() {
    for quality in [ImageQuality::Low, ImageQuality::Medium, ImageQuality::High] {
        let ramp = ramp_of(quality);
        let darkest = ramp[0];
        let frame = gray_frame(9, 9, 0);
        let grid = convert(&frame, 4, 3, quality);
        for row in &grid {
            for &cell in row {
                assert_eq!(cell, darkest);
            }
        }
    }
}

#[test]
fn zero_target_dimension_yields_empty_grid() {
    let frame = gray_frame(4, 4, 128);
    assert!(convert(&frame, 0, 5, ImageQuality::Low).is_empty());
    assert!(convert(&frame, 5, 0, ImageQuality::High).is_empty());
}

#[test]
fn degenerate_one_by_one_input_converts() {
    let frame = gray_frame(1, 1, 255);
    let grid = convert(&frame, 2, 2, ImageQuality::Medium);
    let ramp = ramp_of(ImageQuality::Medium);
    assert_eq!(grid.len(), 2);
    for row in &grid {
        for &cell in row {
            assert_eq!(cell, *ramp.last().unwrap());
        }
    }
}

#[test]
fn uniform_gray_low_quality_grid_is_uniform_mid_ramp() {
    // A 10×10 source of (128, 128, 128) at Low quality onto a 2×2 grid:
    // luminance level 128, gamma-corrected to 48059 of 65535, lands on
    // ramp index floor(48059 × 9 / 65535) = 6 of the ten-character ramp.
    let frame = gray_frame(10, 10, 128);
    let grid = convert(&frame, 2, 2, ImageQuality::Low);
    let ramp = ramp_of(ImageQuality::Low);
    assert_eq!(grid.len(), 2);
    let first = grid[0][0];
    for row in &grid {
        assert_eq!(row.len(), 2);
        for &cell in row {
            assert_eq!(cell, first);
        }
    }
    assert_eq!(first, ramp[6]);
    assert_eq!(first, '*');
}

#[test]
fn resampling_blends_rather_than_echoes_its_input() {
    // One black and one white pixel averaged into a single cell by the
    // triangle filter: the result is neither the darkest nor the brightest
    // character, so the resampled buffer is not the input handed back.
    let frame = Frame::from_rgb(2, 1, vec![0, 0, 0, 255, 255, 255]).unwrap();
    let grid = convert(&frame, 1, 1, ImageQuality::Medium);
    let ramp = ramp_of(ImageQuality::Medium);
    let cell = grid[0][0];
    assert_ne!(cell, ramp[0]);
    assert_ne!(cell, *ramp.last().unwrap());
}

#[test]
fn cache_insert_beyond_capacity_evicts_least_recently_used() {
    let mut cache = FrameCache::new(3);
    for i in 0..3usize {
        cache.insert(i, gray_frame(2, 2, i as u8));
    }
    assert_eq!(cache.len(), 3);
    // A fourth distinct index evicts exactly the never-touched oldest one.
    cache.insert(3, gray_frame(2, 2, 3));
    assert_eq!(cache.len(), 3);
    assert!(cache.get(0).is_none());
    assert!(cache.get(1).is_some());
    assert!(cache.get(2).is_some());
    assert!(cache.get(3).is_some());
}

#[test]
fn cache_hit_refreshes_recency_before_eviction() {
    let mut cache = FrameCache::new(3);
    cache.insert(10, gray_frame(2, 2, 1));
    cache.insert(11, gray_frame(2, 2, 2));
    cache.insert(12, gray_frame(2, 2, 3));
    // Touching the oldest entry protects it from the next eviction.
    assert!(cache.get(10).is_some());
    cache.insert(13, gray_frame(2, 2, 4));
    assert!(cache.get(10).is_some());
    assert!(cache.get(11).is_none());
}

#[test]
fn cache_overwrites_in_place_and_clears() {
    let mut cache = FrameCache::new(2);
    cache.insert(5, gray_frame(2, 2, 9));
    cache.insert(5, gray_frame(2, 2, 7));
    assert_eq!(cache.len(), 1);
    let frame = cache.get(5).unwrap();
    assert_eq!(frame.pixels()[0], 7);
    cache.clear();
    assert_eq!(cache.len(), 0);
    assert!(cache.get(5).is_none());
}

#[test]
fn ten_frame_clip_pauses_at_end_of_media() {
    let frames: Vec<Frame> = (0..10).map(|i| gray_frame(2, 2, i as u8 * 20)).collect();
    let mut widget = ImageWidget::new();
    widget.load_video_frames(frames, 25_000);
    for step in 1..=9usize {
        let status = widget.next_frame();
        assert_eq!(status, AdvanceStatus::Advanced);
        let (current, total, _) = widget.get_playback_info();
        assert_eq!(current, step);
        assert_eq!(total, 10);
    }
    let status = widget.next_frame();
    assert_eq!(status, AdvanceStatus::EndOfMedia);
    let (current, _, playing) = widget.get_playback_info();
    assert_eq!(current, 9);
    assert!(!playing);
    assert_eq!(widget.controller.state, PlaybackState::Paused);
}

#[test]
fn next_frame_without_media_reports_no_media() {
    let mut controller = PlaybackController::new();
    assert_eq!(controller.next_frame(), AdvanceStatus::NoMedia);
    assert_eq!(controller.current_frame_index, 0);
}

#[test]
fn previous_frame_clamps_at_zero() {
    let mut widget = ImageWidget::new();
    widget.load_video_frames(vec![gray_frame(2, 2, 0), gray_frame(2, 2, 1)], 10_000);
    widget.previous_frame();
    let (current, _, _) = widget.get_playback_info();
    assert_eq!(current, 0);
}

#[test]
fn tick_paces_advancement_by_the_clip_rate() {
    let mut controller = PlaybackController::new();
    controller.load_media(5);
    controller.set_frame_rate(25_000); // 40 ms per frame
    controller.play(1000);
    assert!(!controller.should_advance_frame(1030));
    assert!(controller.should_advance_frame(1040));
    assert_eq!(controller.tick(1030), None);
    assert_eq!(controller.current_frame_index, 0);
    assert_eq!(controller.tick(1040), Some(AdvanceStatus::Advanced));
    assert_eq!(controller.current_frame_index, 1);
    assert_eq!(controller.last_advance_ms, 1040);
}

#[test]
fn toggle_playback_flips_state_and_resets_clock() {
    let mut widget = ImageWidget::new();
    widget.load_video_frames(vec![gray_frame(2, 2, 0), gray_frame(2, 2, 1)], 10_000);
    widget.toggle_playback(500);
    let (_, _, playing) = widget.get_playback_info();
    assert!(playing);
    assert_eq!(widget.controller.last_advance_ms, 500);
    widget.toggle_playback(600);
    let (_, _, playing) = widget.get_playback_info();
    assert!(!playing);
}

#[test]
fn load_nonexistent_path_is_not_found() {
    let r = classify_source("/nonexistent/path.mp4", false);
    assert!(matches!(r, Err(ImageError::NotFound(_))));
    if let Err(e) = r {
        assert_eq!(e.detail(), "/nonexistent/path.mp4");
    }
}

#[test]
fn load_unrecognised_extension_is_unsupported() {
    let r = classify_source("file.txt", true);
    assert!(matches!(r, Err(ImageError::UnsupportedFormat(_))));
    assert!(matches!(classify_source("notes", true), Err(ImageError::UnsupportedFormat(_))));
}

#[test]
fn classification_recognises_media_kinds_case_insensitively() {
    assert_eq!(classify_source("clip.mp4", true).unwrap(), MediaKind::Video);
    assert_eq!(classify_source("CLIP.MKV", true).unwrap(), MediaKind::Video);
    assert_eq!(classify_source("photo.png", true).unwrap(), MediaKind::StillImage);
    assert_eq!(classify_source("dir.v1/photo.JPEG", true).unwrap(), MediaKind::StillImage);
    assert!(matches!(
        classify_source("archive.tar/clip", true),
        Err(ImageError::UnsupportedFormat(_))
    ));
}

#[test]
fn error_kinds_carry_their_detail() {
    assert_eq!(ImageError::DecodingError("bad packet".to_string()).detail(), "bad packet");
    assert_eq!(ImageError::MissingDecoder("no tool".to_string()).detail(), "no tool");
    assert_eq!(ImageError::IoError("disk".to_string()).detail(), "disk");
}

#[test]
fn metadata_defaults_and_total_frame_count() {
    let m = VideoMetadata::from_probe(640, 480, None, Some(4_000), "mp4".to_string(), true);
    assert_eq!(m.fps_millis, 25_000);
    assert_eq!(m.total_frame_count, 100); // 4 s × 25 fps
    assert!(m.has_audio);
    let unknown = VideoMetadata::from_probe(0, 0, Some(30_000), None, "raw".to_string(), false);
    assert_eq!(unknown.total_frame_count, 0);
    let half = VideoMetadata::from_probe(1, 1, Some(12_500), Some(1_000), "avi".to_string(), false);
    assert_eq!(half.total_frame_count, 12); // floor(1 s × 12.5 fps)
}

#[test]
fn frame_files_are_ordered_by_their_numbers() {
    assert_eq!(frame_number_of("frame_000123.png"), Some(123));
    assert_eq!(frame_number_of("cover.png"), None);
    let names = vec![
        "frame_010.png".to_string(),
        "frame_002.png".to_string(),
        "readme".to_string(),
        "frame_001.png".to_string(),
    ];
    let ordered = order_frame_files(names);
    assert_eq!(
        ordered,
        vec!["frame_001.png".to_string(), "frame_002.png".to_string(), "frame_010.png".to_string()]
    );
}

#[test]
fn streamed_clip_requests_decodes_and_accepts_results() {
    let mut widget = ImageWidget::new();
    widget.load_video_streamed(4, 10_000);
    assert_eq!(widget.take_pending_decode(), Some(0));
    widget.supply_frame(0, gray_frame(2, 2, 50));
    assert!(widget.current_image.is_some());
    let status = widget.next_frame();
    assert_eq!(status, AdvanceStatus::Advanced);
    // Frame 1 is not cached yet: the widget asks for it and keeps frame 0.
    assert_eq!(widget.take_pending_decode(), Some(1));
    assert_eq!(widget.current_image.as_ref().unwrap().pixels()[0], 50);
    widget.supply_frame(1, gray_frame(2, 2, 60));
    assert_eq!(widget.current_image.as_ref().unwrap().pixels()[0], 60);
}

#[test]
fn loading_an_image_resets_the_clip() {
    let mut widget = ImageWidget::new();
    widget.load_video_frames(vec![gray_frame(2, 2, 0), gray_frame(2, 2, 1)], 10_000);
    widget.load_image(gray_frame(3, 3, 77));
    let (current, total, playing) = widget.get_playback_info();
    assert_eq!((current, total, playing), (0, 1, false));
    assert!(widget.source.bulk_frames.is_empty());
    let grid = widget.render_ascii(2, 2).unwrap();
    assert_eq!(grid.len(), 2);
    assert_eq!(widget.frames_rendered, 1);
    assert!(widget.render_ascii(0, 4).unwrap().is_empty());
}

#[test]
fn failed_decode_restores_the_shown_frame_and_index() {
    let mut widget = ImageWidget::new();
    widget.load_video_streamed(4, 10_000);
    assert_eq!(widget.take_pending_decode(), Some(0));
    widget.supply_frame(0, gray_frame(2, 2, 50));
    let status = widget.next_frame();
    assert_eq!(status, AdvanceStatus::Advanced);
    assert_eq!(widget.take_pending_decode(), Some(1));
    // The decode of frame 1 fails: the index returns to the shown frame.
    widget.decode_failed();
    let (current, total, _) = widget.get_playback_info();
    assert_eq!(current, 0);
    assert_eq!(total, 4);
    assert_eq!(widget.current_image.as_ref().unwrap().pixels()[0], 50);
    assert!(widget.take_pending_decode().is_none());
}

#[test]
fn toggling_playback_twice_keeps_the_frame_store() {
    let mut widget = ImageWidget::new();
    widget.load_video_frames(vec![gray_frame(2, 2, 0), gray_frame(2, 2, 1)], 10_000);
    widget.toggle_playback(100);
    widget.toggle_playback(200);
    let (current, total, playing) = widget.get_playback_info();
    assert_eq!((current, total), (0, 2));
    assert!(!playing);
    assert_eq!(widget.source.bulk_frames.len(), 2);
    assert!(widget.current_image.is_some());
}
