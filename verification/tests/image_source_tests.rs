use std::io::Cursor;

use image::{DynamicImage, ImageFormat, Rgb, RgbImage};
use lcdd::frame::RenderedFrame;
use lcdd::image_source::{Background, BackgroundUpdate, ImageSource};
use lcdd::prepare::PrepareError;
use lcdd::rotation::{PrepareOptions, Rotation};
use lcdd::source::RefreshKind;

fn png(color: [u8; 3]) -> Vec<u8> {
    let mut bytes = Cursor::new(Vec::new());
    DynamicImage::ImageRgb8(RgbImage::from_pixel(64, 64, Rgb(color)))
        .write_to(&mut bytes, ImageFormat::Png)
        .unwrap();
    bytes.into_inner()
}

fn source(has_overlay: bool) -> ImageSource {
    let background = Background::load("bg.png".to_string(), png([10, 20, 30])).unwrap();
    let rendered = background.frame().clone();
    ImageSource::new(background, rendered, PrepareOptions::new(Rotation::Deg0), has_overlay, 1_000, 500, 250)
        .unwrap()
}

#[test]
fn backgrounds_are_normalized_to_the_lcd() {
    let background = Background::load("bg.png".to_string(), png([1, 2, 3])).unwrap();
    assert_eq!((background.frame().width(), background.frame().height()), (320, 320));
    assert!(matches!(
        Background::load("bg.png".to_string(), b"nope".to_vec()),
        Err(PrepareError::Decode)
    ));
}

#[test]
fn image_source_keeps_last_valid_image_on_invalid_reload_without_overlay() {
    let mut source = source(false);
    let before = source.current().jpeg_bytes().to_vec();
    assert!(!source.take_background_check(1_499));
    assert!(source.take_background_check(1_500));

    assert_eq!(source.offer_background(png([10, 20, 30])), BackgroundUpdate::Unchanged);
    assert_eq!(
        source.offer_background(b"not-a-jpeg".to_vec()),
        BackgroundUpdate::Rejected(PrepareError::Decode)
    );
    assert!(!source.render_due(false, 10_000));
    assert_eq!(source.current().jpeg_bytes(), before.as_slice());
    assert_eq!(source.path(), "bg.png");
}

#[test]
fn image_source_reports_source_reload_on_valid_update_without_overlay() {
    let mut source = source(false);
    let before = source.current().jpeg_bytes().to_vec();
    assert_eq!(source.offer_background(png([200, 0, 0])), BackgroundUpdate::Replaced);
    assert!(source.render_due(true, 1_000));
    let rendered = source.background().frame().clone();
    assert_eq!(source.accept_render(Some(rendered), true, 1_000), RefreshKind::SourceReloaded);
    assert_ne!(source.current().jpeg_bytes(), before.as_slice());
    assert!(!source.has_overlay());
}

#[test]
fn image_source_with_overlay_reports_content_update() {
    let mut source = source(true);
    assert!(source.has_overlay());
    assert!(!source.render_due(false, 1_249));
    assert!(source.render_due(false, 1_250));
    let rendered = source.background().frame().clone();
    assert_eq!(source.accept_render(Some(rendered), false, 1_250), RefreshKind::ContentUpdated);
    assert!(!source.render_due(false, 1_499));
    assert!(source.render_due(false, 1_500));
}

#[test]
fn failed_renders_leave_the_current_frame() {
    let mut source = source(true);
    let before = source.current().jpeg_bytes().to_vec();
    assert_eq!(source.accept_render(None, false, 1_300), RefreshKind::Unchanged);
    let malformed = RenderedFrame::new(320, 320, vec![0; 12]);
    assert_eq!(source.accept_render(Some(malformed), true, 1_300), RefreshKind::Unchanged);
    assert_eq!(source.current().jpeg_bytes(), before.as_slice());
    // The overlay is still due, since nothing was rendered.
    assert!(source.render_due(false, 1_250));
}

#[test]
fn malformed_first_frames_are_refused() {
    let background = Background::load("bg.png".to_string(), png([10, 20, 30])).unwrap();
    assert!(matches!(
        ImageSource::new(background, RenderedFrame::new(2, 2, vec![0; 3]), PrepareOptions::default(), true, 0, 1, 1),
        Err(PrepareError::MalformedFrame)
    ));
    // Without an overlay the background itself is shown; the render is not used.
    let background = Background::load("bg.png".to_string(), png([10, 20, 30])).unwrap();
    let mut plain =
        ImageSource::new(background, RenderedFrame::new(2, 2, vec![0; 3]), PrepareOptions::default(), false, 0, 1, 1)
            .unwrap();
    assert_eq!((plain.current().width(), plain.current().height()), (320, 320));
    let before = plain.current().jpeg_bytes().to_vec();
    assert_eq!(plain.accept_render(None, true, 5), RefreshKind::SourceReloaded);
    assert_eq!(plain.current().jpeg_bytes(), before.as_slice());
    assert!(RenderedFrame::new(2, 2, vec![0; 16]).is_well_formed());
    assert!(!RenderedFrame::new(u32::MAX, u32::MAX, vec![]).is_well_formed());
}
