use std::time::Duration;

use image::codecs::gif::GifEncoder;
use image::{Delay, Frame, Rgba, RgbaImage};
use lcdd::animation::{fit_to_canvas, fitted_dimensions};
use lcdd::frame::RenderedFrame;
use lcdd::rotation::PrepareOptions;
use lcdd::source::{AnimatedSource, FrameSource, RefreshOutcome, SourceError};

fn gif_bytes(delays_ms: [u64; 2]) -> Vec<u8> {
    let mut bytes = Vec::new();
    {
        let mut encoder = GifEncoder::new(&mut bytes);
        let frames = delays_ms.iter().enumerate().map(|(idx, ms)| {
            let colour = if idx == 0 {
                Rgba([255, 0, 0, 255])
            } else {
                Rgba([0, 0, 255, 255])
            };
            Frame::from_parts(
                RgbaImage::from_pixel(100, 50, colour),
                0,
                0,
                Delay::from_saturating_duration(Duration::from_millis(*ms)),
            )
        });
        encoder.encode_frames(frames).unwrap();
    }
    bytes
}

fn pixel(frame: &RenderedFrame, x: u32, y: u32) -> [u8; 4] {
    let at = ((y * frame.width() + x) * 4) as usize;
    [frame.rgba()[at], frame.rgba()[at + 1], frame.rgba()[at + 2], frame.rgba()[at + 3]]
}

#[test]
fn fit_to_canvas_letterboxes_to_the_lcd_size() {
    let source = RgbaImage::from_pixel(100, 50, Rgba([10, 200, 30, 255]));
    let fitted = fit_to_canvas(RenderedFrame::new(100, 50, source.into_raw()));

    assert_eq!((fitted.width(), fitted.height()), (320, 320));
    // The source is wider than it is tall, so the padding lands top and bottom.
    assert_eq!(pixel(&fitted, 160, 160), [10, 200, 30, 255]);
    assert_eq!(pixel(&fitted, 160, 0), [0, 0, 0, 255]);
}

#[test]
fn fitted_dimensions_keep_the_aspect_ratio() {
    assert_eq!(fitted_dimensions(100, 50), (320, 160));
    assert_eq!(fitted_dimensions(50, 100), (160, 320));
    assert_eq!(fitted_dimensions(320, 320), (320, 320));
    assert_eq!(fitted_dimensions(1000, 1), (320, 1));
    assert_eq!(fitted_dimensions(384, 3), (320, 3));
    assert_eq!(fitted_dimensions(u32::MAX, u32::MAX - 1), (320, 320));
    assert_eq!(fitted_dimensions(0, 0), (1, 1));
    assert_eq!(fitted_dimensions(0, 7), (1, 320));
    assert_eq!(fitted_dimensions(7, 0), (320, 1));
}

#[test]
fn a_frame_with_no_pixel_becomes_the_black_canvas() {
    for (w, h) in [(0, 0), (0, 12), (12, 0)] {
        let fitted = fit_to_canvas(RenderedFrame::new(w, h, Vec::new()));
        assert_eq!((fitted.width(), fitted.height()), (320, 320));
        assert!(fitted.rgba().chunks(4).all(|p| p == [0, 0, 0, 255]));
    }
}

#[test]
fn a_canvas_sized_frame_is_kept_as_it_is() {
    let bytes: Vec<u8> = (0..320u32 * 320 * 4).map(|i| (i % 253) as u8).collect();
    let fitted = fit_to_canvas(RenderedFrame::new(320, 320, bytes.clone()));
    assert_eq!(fitted.rgba(), bytes.as_slice());
}

#[test]
fn animated_source_cycles_frames_on_their_own_delays() {
    let bytes = gif_bytes([100, 200]);

    let mut source = AnimatedSource::new("sample.gif".to_string(), &bytes, PrepareOptions::default(), 1_000).unwrap();
    assert_eq!(source.delays(), &[100, 200]);
    assert_eq!(source.frame_count(), 2);

    let first = source.current().jpeg_bytes().to_vec();
    assert!(matches!(source.refresh_if_changed(1_000).unwrap(), RefreshOutcome::Unchanged));

    assert!(matches!(source.refresh_if_changed(1_100).unwrap(), RefreshOutcome::ContentUpdated));
    assert_ne!(source.current().jpeg_bytes(), first.as_slice());
    assert_eq!(source.current().source_path(), "sample.gif");
}

#[test]
fn animations_report_why_they_cannot_be_loaded() {
    assert!(matches!(
        AnimatedSource::new("broken.gif".to_string(), b"GIF89a", PrepareOptions::default(), 0),
        Err(SourceError::Decode)
    ));
    assert!(matches!(
        AnimatedSource::new("text.gif".to_string(), b"hello", PrepareOptions::default(), 0),
        Err(SourceError::Decode)
    ));
    let fast = gif_bytes([0, 10]);
    let source = AnimatedSource::new("fast.gif".to_string(), &fast, PrepareOptions::default(), 0).unwrap();
    // "As fast as possible" delays are shown for 100 ms instead.
    assert_eq!(source.delays(), &[100, 100]);
}
