use rawcanvas::canvas::prepare_image;
use rawcanvas::image::{Image, MAX_SIDE};
use rawcanvas::paint::{BLACK, RED, WHITE};
use rawcanvas::{
    Backing, BlendMode, Canvas, CanvasError, FilterMode, MipmapMode, Paint, Rect, SamplingOptions,
};

const WIDTH: u32 = 1920;
const HEIGHT: u32 = 1080;
const FRAMES_PER_SECOND: u32 = 30;
const SECONDS_TO_RUN: u32 = 5;

// Fail if we leak 500 MB while drawing.
const MEMORY_LEAK_THRESHOLD: f64 = 500.0;

fn virtual_memory_mb() -> f64 {
    match memory_stats::memory_stats() {
        Some(usage) => usage.virtual_mem as f64 / 1024.0 / 1024.0,
        None => 0.0,
    }
}

fn draw_for_frames(canvas: &mut Canvas) {
    let frames = FRAMES_PER_SECOND * SECONDS_TO_RUN;
    let pixels = vec![0u8; WIDTH as usize * HEIGHT as usize * 4];
    // Let the first frames settle before taking the base line.
    let mut image = canvas.draw_raw_rgb_scale(0, 0, WIDTH, HEIGHT, 1, Some(&pixels), None);
    let memory_base = virtual_memory_mb();
    let mut memory_increase = vec![];
    for frame in 0..frames {
        image = canvas.draw_raw_rgb_scale(0, 0, WIDTH, HEIGHT, 1, Some(&pixels), image);
        assert!(image.is_some());
        if frame % (FRAMES_PER_SECOND / 2) == 0 {
            memory_increase.push(virtual_memory_mb() - memory_base);
        }
    }
    let mut total = 0.0;
    for increase in &memory_increase {
        total += *increase;
    }
    let average_memory_leak = total / memory_increase.len() as f64;
    println!(
        "Average memory leaked per sample period: {} MB",
        average_memory_leak
    );
    assert!(average_memory_leak < MEMORY_LEAK_THRESHOLD);
    let image = image.unwrap();
    assert_eq!(image.width(), WIDTH);
    assert_eq!(image.height(), HEIGHT);
}

#[test]
fn test_canvas() {
    let mut canvas = Canvas::new(WIDTH, HEIGHT);
    draw_for_frames(&mut canvas);
}

#[test]
fn test_metal_canvas() {
    let canvas = Canvas::new_metal(WIDTH, HEIGHT, true, true);
    match canvas {
        Some(mut canvas) => draw_for_frames(&mut canvas),
        _ => panic!("Expected metal canvas"),
    }
}

#[test]
fn new_reports_its_size() {
    for (w, h) in [(1u32, 1u32), (WIDTH, HEIGHT), (7, 3), (MAX_SIDE, 2)] {
        let canvas = Canvas::new(w, h);
        assert_eq!(canvas.width(), w as usize);
        assert_eq!(canvas.height(), h as usize);
        assert_eq!(canvas.backing(), Backing::Cpu);
        assert_eq!(canvas.background(), WHITE);
        assert_eq!(canvas.last_draw(), None);
    }
}

#[test]
fn new_starts_with_solid_black_paint() {
    let canvas = Canvas::new(4, 4);
    let paint = canvas.paint();
    assert_eq!(paint.color, BLACK);
    assert_eq!(paint.stroke_width, 1);
    assert_eq!(paint.blend_mode, BlendMode::SrcOver);
    assert_eq!(Paint::solid_black(), paint);
}

#[test]
fn gpu_canvas_is_cleared_to_red() {
    let canvas = Canvas::new_metal(640, 480, true, true).unwrap();
    assert_eq!(canvas.backing(), Backing::Gpu);
    assert_eq!(canvas.background(), RED);
    assert_eq!(canvas.width(), 640);
    assert_eq!(canvas.height(), 480);
}

#[test]
fn gpu_unavailable_falls_back_to_cpu() {
    assert!(Canvas::new_metal(WIDTH, HEIGHT, false, true).is_none());
    assert!(matches!(
        Canvas::try_new_metal(WIDTH, HEIGHT, false, false),
        Err(CanvasError::DeviceUnavailable)
    ));
    let canvas = Canvas::new(WIDTH, HEIGHT);
    assert_eq!(canvas.backing(), Backing::Cpu);
    assert_eq!(canvas.background(), WHITE);
    assert_eq!(canvas.width(), WIDTH as usize);
}

#[test]
fn gpu_surface_failure_gives_nothing() {
    assert!(Canvas::new_metal(WIDTH, HEIGHT, true, false).is_none());
    assert!(matches!(
        Canvas::try_new_metal(WIDTH, HEIGHT, true, false),
        Err(CanvasError::SurfaceAllocationFailure)
    ));
    assert!(matches!(
        Canvas::try_new_metal(0, HEIGHT, true, true),
        Err(CanvasError::SurfaceAllocationFailure)
    ));
}

#[test]
fn raw_draw_at_scale_one_keeps_size() {
    let mut canvas = Canvas::new(100, 100);
    for (w, h) in [(1u32, 1u32), (3, 2), (16, 9)] {
        let pixels = vec![7u8; (w * h * 4) as usize];
        let image = canvas
            .draw_raw_rgb_scale(5, 6, w, h, 1, Some(&pixels), None)
            .unwrap();
        assert_eq!(image.width(), w);
        assert_eq!(image.height(), h);
        assert_eq!(image.pixels(), &pixels[..]);
        assert_eq!(image.row_bytes(), (w * 4) as u64);
        let draw = canvas.last_draw().unwrap();
        assert_eq!(
            draw.dst,
            Rect { left: 5, top: 6, right: 5 + w as i64, bottom: 6 + h as i64 }
        );
        assert_eq!(draw.src_width, w);
        assert_eq!(draw.src_height, h);
    }
}

#[test]
fn image_copies_caller_bytes() {
    let mut pixels = vec![1u8, 2, 3, 4, 5, 6, 7, 8];
    let image = Image::from_raster_data(2, 1, &pixels).unwrap();
    pixels[0] = 99;
    assert_eq!(image.pixels(), &[1u8, 2, 3, 4, 5, 6, 7, 8][..]);
}

#[test]
fn reused_image_gives_same_destination() {
    let mut canvas = Canvas::new(200, 200);
    let pixels = vec![0u8; 40 * 30 * 4];
    let image = canvas.draw_raw_rgb_scale(-3, 8, 40, 30, 3, Some(&pixels), None);
    let first = canvas.last_draw().unwrap();
    let again = canvas.draw_raw_rgb_scale(-3, 8, 0, 0, 3, None, image).unwrap();
    let second = canvas.last_draw().unwrap();
    assert_eq!(first, second);
    assert_eq!(second.dst, Rect { left: -3, top: 8, right: 10, bottom: 18 });
    assert_eq!(again.width(), 40);
    assert_eq!(again.height(), 30);
}

#[test]
fn larger_scale_shrinks_destination() {
    let pixels = vec![0u8; 10 * 10 * 4];
    let image = Image::from_raster_data(10, 10, &pixels).unwrap();
    let mut canvas = Canvas::new(50, 50);
    let mut widths = vec![];
    for scale in 1u32..=11 {
        assert!(canvas.draw_image_scale(&image, 0, 0, scale));
        let dst = canvas.last_draw().unwrap().dst;
        widths.push(dst.right - dst.left);
        assert_eq!(dst.bottom - dst.top, (10 / scale) as i64);
    }
    assert_eq!(widths, vec![10, 5, 3, 2, 2, 1, 1, 1, 1, 1, 0]);
    assert!(widths.windows(2).all(|p| p[1] <= p[0]));
}

#[test]
fn scale_above_width_gives_empty_destination() {
    let mut canvas = Canvas::new(50, 50);
    let pixels = vec![0u8; 10 * 4 * 4];
    canvas.draw_raw_rgb_scale(2, 2, 10, 4, 11, Some(&pixels), None).unwrap();
    let dst = canvas.last_draw().unwrap().dst;
    assert_eq!(dst, Rect { left: 2, top: 2, right: 2, bottom: 2 });
}

#[test]
fn draw_uses_downscale_sampling_and_canvas_paint() {
    let mut canvas = Canvas::new(8, 8);
    let pixels = vec![0u8; 16];
    canvas.draw_raw_rgb_scale(0, 0, 2, 2, 2, Some(&pixels), None).unwrap();
    let draw = canvas.last_draw().unwrap();
    assert_eq!(
        draw.sampling,
        SamplingOptions { filter: FilterMode::Linear, mipmap: MipmapMode::Nearest }
    );
    assert_eq!(SamplingOptions::for_downscale(), draw.sampling);
    assert_eq!(draw.paint, canvas.paint());
    assert_eq!(draw.dst, Rect { left: 0, top: 0, right: 1, bottom: 1 });
}

#[test]
fn scale_zero_is_rejected() {
    let mut canvas = Canvas::new(8, 8);
    let pixels = vec![0u8; 16];
    assert!(canvas.draw_raw_rgb_scale(0, 0, 2, 2, 0, Some(&pixels), None).is_none());
    assert_eq!(canvas.last_draw(), None);
    let image = Image::from_raster_data(2, 2, &pixels).unwrap();
    assert!(!canvas.draw_image_scale(&image, 0, 0, 0));
    assert_eq!(canvas.last_draw(), None);
    assert!(matches!(
        prepare_image(2, 2, 0, Some(&pixels), None),
        Err(CanvasError::InvalidScale)
    ));
}

#[test]
fn bad_buffer_skips_draw() {
    let mut canvas = Canvas::new(8, 8);
    let pixels = vec![0u8; 16];
    canvas.draw_raw_rgb_scale(1, 1, 2, 2, 1, Some(&pixels), None).unwrap();
    let before = canvas.last_draw();
    assert!(canvas.draw_raw_rgb_scale(0, 0, 3, 2, 1, Some(&pixels), None).is_none());
    assert!(canvas.draw_raw_rgb_scale(0, 0, 0, 4, 1, Some(&pixels), None).is_none());
    assert!(canvas.draw_raw_rgb_scale(0, 0, 2, 2, 1, None, None).is_none());
    assert_eq!(canvas.last_draw(), before);
    assert!(matches!(
        prepare_image(3, 2, 1, Some(&pixels), None),
        Err(CanvasError::ImageDecodeFailure)
    ));
    assert!(matches!(
        prepare_image(2, 2, 1, None, None),
        Err(CanvasError::MissingSource)
    ));
    assert!(Image::from_raster_data(0, 0, &[]).is_none());
    assert!(Image::from_raster_data(2, 2, &pixels[..15]).is_none());
}
