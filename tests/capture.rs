use prezi_pdf::assemble::{assemble, assemble_decoded};
use prezi_pdf::enumerate::{SlideAction, SlideEnumerator};
use prezi_pdf::error::PipelineError;
use prezi_pdf::geometry::{pixels_to_mm, CaptureConfig, PICOMETRES_PER_PIXEL};
use prezi_pdf::pipeline::{exit_code, next_stage, Stage};
use prezi_pdf::raster::{remove_alpha, strip_alpha, ColorModel, ComponentBits, RasterImage};
use prezi_pdf::readiness::{overlay_outcome, ReadinessAction, ReadinessDetector};
use prezi_pdf::store::RasterSequence;

use printpdf::image_crate::codecs::png::PngEncoder;
use printpdf::image_crate::{ColorType, ImageEncoder};

fn png(width: u32, height: u32, color: ColorType, pixels: &[u8]) -> Vec<u8> {
    let mut out = Vec::new();
    PngEncoder::new(&mut out).write_image(pixels, width, height, color).unwrap();
    out
}

fn rgba_image(data: Vec<u8>) -> RasterImage {
    RasterImage { width: data.len() / 4, height: 1, color: ColorModel::Rgba, bits: ComponentBits::Bit8, data }
}

/// Drives the capture loop over simulated slides: "next" is found after every
/// capture but the last.
fn capture_all<F: Clone>(slides: &[F]) -> (Vec<F>, usize) {
    let mut e = SlideEnumerator::new();
    let mut shots = 0;
    let mut current = 0;
    loop {
        shots += 1;
        let index = e.on_screenshot(Some(slides[current].clone())).unwrap();
        assert_eq!(index, current);
        match e.on_next_lookup(current + 1 < slides.len()) {
            SlideAction::AdvanceAndSettle => {
                e.on_click(true).unwrap();
                current += 1;
            }
            SlideAction::Finish => break,
        }
    }
    assert!(e.finished());
    (e.into_frames().into_frames(), shots)
}

#[test]
fn pixel_length_is_exact_and_repeatable() {
    let first = pixels_to_mm(1024);
    assert_eq!(first.picometres, 86_698_667_008);
    for _ in 0..100 {
        assert_eq!(pixels_to_mm(1024), first);
    }
    assert_eq!(pixels_to_mm(0).picometres, 0);
    assert_eq!(pixels_to_mm(1).picometres, PICOMETRES_PER_PIXEL);
    assert_eq!(
        pixels_to_mm(1000).picometres + pixels_to_mm(24).picometres,
        first.picometres
    );
    assert_eq!(pixels_to_mm(u32::MAX).picometres, u32::MAX as u64 * 84_666_667);
}

#[test]
fn standard_page_geometry() {
    let c = CaptureConfig::standard();
    assert_eq!(c.page_pixels(), (2048, 1276));
    let size = c.page_size();
    assert_eq!(size.width.picometres, 2048 * 84_666_667);
    assert_eq!(size.height.picometres, 1276 * 84_666_667);
    assert_eq!(c.settle_secs, 3);
    assert_eq!(c.max_polls, None);
}

#[test]
fn strip_four_rgba_pixels() {
    let rgba = vec![1, 2, 3, 255, 4, 5, 6, 128, 7, 8, 9, 0, 10, 11, 12, 64];
    let rgb = strip_alpha(&rgba);
    assert_eq!(rgb, vec![1, 2, 3, 4, 5, 6, 7, 8, 9, 10, 11, 12]);
    assert_eq!(rgb.len() * 4, rgba.len() * 3);
    assert_eq!(strip_alpha(&Vec::new()), Vec::<u8>::new());
}

#[test]
fn remove_alpha_turns_image_into_rgb() {
    let mut img = rgba_image(vec![9, 8, 7, 6, 5, 4, 3, 2]);
    remove_alpha(&mut img);
    assert_eq!(img.color, ColorModel::Rgb);
    assert_eq!(img.data, vec![9, 8, 7, 5, 4, 3]);
    assert_eq!((img.width, img.height), (2, 1));
}

#[test]
fn store_appends_in_order_only() {
    let mut s = RasterSequence::new();
    assert_eq!(s.append(0, "a"), Ok(()));
    assert_eq!(s.append(2, "c"), Err(PipelineError::CaptureError { frame: 2 }));
    assert_eq!(s.append(0, "again"), Err(PipelineError::CaptureError { frame: 0 }));
    assert_eq!(s.append(1, "b"), Ok(()));
    assert_eq!(s.len(), 2);
    assert_eq!(*s.get(1), "b");
    assert_eq!(s.into_frames(), vec!["a", "b"]);
}

#[test]
fn enumerator_captures_each_slide_once() {
    let (frames, shots) = capture_all(&[10, 11, 12, 13]);
    assert_eq!(shots, 4);
    assert_eq!(frames, vec![10, 11, 12, 13]);
    let (single, shots) = capture_all(&["only"]);
    assert_eq!(shots, 1);
    assert_eq!(single, vec!["only"]);
}

#[test]
fn enumerator_failures_are_capture_errors() {
    let mut e = SlideEnumerator::new();
    assert_eq!(e.on_screenshot(Some(1u8)), Ok(0));
    assert_eq!(e.on_next_lookup(true), SlideAction::AdvanceAndSettle);
    assert_eq!(e.on_click(false), Err(PipelineError::CaptureError { frame: 0 }));
    assert_eq!(e.on_screenshot(None), Err(PipelineError::CaptureError { frame: 1 }));
    assert_eq!(e.next_index(), 1);
    assert!(!e.finished());
}

#[test]
fn readiness_returns_after_exactly_k_polls() {
    let k = 5;
    let mut d = ReadinessDetector::new(None);
    let mut checks = 0;
    let action = loop {
        checks += 1;
        let a = d.on_spinner(checks <= k);
        if a != ReadinessAction::WaitAndPoll {
            break a;
        }
    };
    assert_eq!(action, ReadinessAction::Ready);
    assert_eq!(d.polls, k as u64);
    assert_eq!(checks, k + 1);
}

#[test]
fn readiness_without_bound_keeps_waiting() {
    let mut d = ReadinessDetector::new(None);
    for _ in 0..1000 {
        assert_eq!(d.on_spinner(true), ReadinessAction::WaitAndPoll);
    }
    assert_eq!(d.polls, 1000);
    let mut top = ReadinessDetector { polls: u64::MAX, max_polls: None };
    assert_eq!(top.on_spinner(true), ReadinessAction::WaitAndPoll);
    assert_eq!(top.polls, u64::MAX);
}

#[test]
fn readiness_bound_gives_up() {
    let mut d = ReadinessDetector::new(Some(2));
    assert_eq!(d.on_spinner(true), ReadinessAction::WaitAndPoll);
    assert_eq!(d.on_spinner(true), ReadinessAction::WaitAndPoll);
    assert_eq!(d.on_spinner(true), ReadinessAction::GiveUp);
    assert_eq!(d.polls, 2);
    assert_eq!(overlay_outcome(true), Ok(()));
    assert_eq!(overlay_outcome(false), Err(PipelineError::ReadinessTimeout));
}

#[test]
fn decode_failure_on_third_of_four_frames() {
    let frames = vec![
        Some(rgba_image(vec![1, 2, 3, 4])),
        Some(rgba_image(vec![5, 6, 7, 8])),
        None,
        Some(rgba_image(vec![9, 9, 9, 9])),
    ];
    let r = assemble_decoded("t".to_string(), frames, &CaptureConfig::standard());
    assert_eq!(r.unwrap_err(), PipelineError::DecodeError { frame: 2 });
}

#[test]
fn frame_without_alpha_is_refused() {
    let rgb = RasterImage {
        width: 1,
        height: 1,
        color: ColorModel::Rgb,
        bits: ComponentBits::Bit8,
        data: vec![1, 2, 3],
    };
    let r = assemble_decoded("t".to_string(), vec![Some(rgb)], &CaptureConfig::standard());
    assert_eq!(r.unwrap_err(), PipelineError::DecodeError { frame: 0 });
    let r = assemble_decoded("t".to_string(), Vec::new(), &CaptureConfig::standard());
    assert_eq!(r.unwrap().pages.len(), 0);
}

#[test]
fn png_bytes_that_do_not_decode_fail_assembly() {
    let good = png(1, 1, ColorType::Rgba8, &[1, 2, 3, 4]);
    let frames = vec![good.clone(), good, b"not a png".to_vec()];
    let r = assemble("t".to_string(), &frames, &CaptureConfig::standard());
    assert_eq!(r.unwrap_err(), PipelineError::DecodeError { frame: 2 });
    let gray = png(1, 1, ColorType::L8, &[7]);
    let r = assemble("t".to_string(), &vec![gray], &CaptureConfig::standard());
    assert_eq!(r.unwrap_err(), PipelineError::DecodeError { frame: 0 });
}

#[test]
fn three_slides_end_to_end() {
    let url = "https://example.test/view/abc123/";
    assert!(url.starts_with("https://"));
    let slides: Vec<Vec<u8>> = (0..3u8)
        .map(|s| png(2, 1, ColorType::Rgba8, &[s, 1, 2, 255, s, 3, 4, 200]))
        .collect();
    let (frames, shots) = capture_all(&slides);
    assert_eq!(shots, 3);
    let config = CaptureConfig::standard();
    let doc = assemble("Deck".to_string(), &frames, &config).unwrap();
    assert_eq!(doc.title, "Deck");
    assert_eq!(doc.pages.len(), 3);
    for (i, page) in doc.pages.iter().enumerate() {
        assert_eq!(page.frame, i);
        assert_eq!(page.size.width.picometres, (1024 - 0) * 2 * 84_666_667);
        assert_eq!(page.size.height.picometres, (768 - 130) * 2 * 84_666_667);
        assert_eq!(page.image.color, ColorModel::Rgb);
        assert_eq!(page.image.bits, ComponentBits::Bit8);
        assert_eq!((page.image.width, page.image.height), (2, 1));
        assert_eq!(page.image.data, vec![i as u8, 1, 2, i as u8, 3, 4]);
    }
}

#[test]
fn stages_run_in_line_and_fail_to_a_terminal_state() {
    let mut s = Stage::Init;
    let order = [Stage::SessionOpen, Stage::Ready, Stage::Capturing, Stage::Assembling, Stage::Done];
    for want in order {
        s = next_stage(s, Ok(()));
        assert_eq!(s, want);
    }
    assert_eq!(next_stage(Stage::Done, Err(PipelineError::AssemblyError)), Stage::Done);
    let failed = next_stage(Stage::Capturing, Err(PipelineError::CaptureError { frame: 3 }));
    assert_eq!(failed, Stage::Failed { error: PipelineError::CaptureError { frame: 3 } });
    assert_eq!(next_stage(failed, Ok(())), failed);
    assert_eq!(exit_code(&Ok(())), 0);
    assert_eq!(exit_code(&Err(PipelineError::SessionError)), 255);
}

#[test]
fn config_well_formedness() {
    assert!(CaptureConfig::standard().is_well_formed());
    let mut c = CaptureConfig::standard();
    c.border_y = 769;
    assert!(!c.is_well_formed());
    c.border_y = 0;
    c.window_width = u32::MAX;
    assert!(!c.is_well_formed());
    c.border_x = u32::MAX / 2 + 1;
    assert!(c.is_well_formed());
    assert_eq!(c.page_pixels().0, u32::MAX - 1);
}
