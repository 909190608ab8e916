use map_photography::camera::{Camera, Frac};
use map_photography::compose::{composite_pixel, draw_phases, render_flat_frame, DrawPhase};
use map_photography::image::Rgba;

fn rgba(r: u8, g: u8, b: u8, a: u8) -> Rgba {
    Rgba { r, g, b, a }
}

#[test]
fn new_camera_has_defaults() {
    let zoom = Frac::new(5, 4);
    let cam = Camera::new(zoom);
    assert_eq!(cam.pos_x, Frac::whole(0));
    assert_eq!(cam.pos_y, Frac::whole(0));
    assert_eq!(cam.zoom_x, zoom);
    assert_eq!(cam.zoom_y, zoom);
    assert_eq!(cam.aspect_w, 1);
    assert_eq!(cam.aspect_h, 1);
}

#[test]
fn switch_aspect_ratio_equals_width_over_height() {
    let mut cam = Camera::new(Frac::whole(1));
    cam.switch_aspect_ratio(1920, 1080);
    assert_eq!(cam.aspect_w, 1920);
    assert_eq!(cam.aspect_h, 1080);
    // The ratio equals W / H exactly: 1920 * H == W * 1080.
    assert_eq!(cam.aspect_w as u64 * 1080, 1920 * cam.aspect_h as u64);
}

#[test]
fn proportional_resolutions_share_the_aspect_ratio() {
    let zoom = Frac::new(5, 4);
    let mut a = Camera::new(zoom);
    let mut b = Camera::new(zoom);
    a.configure(zoom, 1920, 1080, Frac::whole(50), Frac::whole(50));
    b.configure(zoom, 960, 540, Frac::whole(50), Frac::whole(50));
    // Identical framing: same position and zoom, equal aspect ratios.
    assert_eq!(a.pos_x, b.pos_x);
    assert_eq!(a.pos_y, b.pos_y);
    assert_eq!(a.zoom_x, b.zoom_x);
    assert_eq!(a.zoom_y, b.zoom_y);
    assert_eq!(
        a.aspect_w as u64 * b.aspect_h as u64,
        b.aspect_w as u64 * a.aspect_h as u64
    );
}

#[test]
fn configure_determines_the_whole_camera_state() {
    let mut cam = Camera::new(Frac::whole(1));
    cam.configure(Frac::new(5, 4), 1920, 1080, Frac::whole(50), Frac::whole(50));
    assert_eq!(cam.zoom_x, Frac::new(5, 4));
    assert_eq!(cam.zoom_y, Frac::new(5, 4));
    assert_eq!(cam.pos_x, Frac::whole(50));
    assert_eq!(cam.pos_y, Frac::whole(50));
    assert_eq!(cam.aspect_w, 1920);
    assert_eq!(cam.aspect_h, 1080);
}

#[test]
fn render_pass_draws_background_then_foreground() {
    let phases = draw_phases();
    assert_eq!(phases.len(), 2);
    assert!(matches!(phases[0], DrawPhase::Background));
    assert!(matches!(phases[1], DrawPhase::Foreground));
}

#[test]
fn foreground_covers_background_at_the_same_pixel() {
    let clear = rgba(0, 0, 0, 255);
    let background = rgba(255, 0, 0, 255);
    let foreground = rgba(0, 0, 255, 255);
    let out = composite_pixel(clear, &vec![Some(background), Some(foreground)]);
    assert_eq!(out, foreground);
}

#[test]
fn invisible_foreground_leaves_background_showing() {
    let clear = rgba(0, 0, 0, 255);
    let background = rgba(255, 0, 0, 255);
    let transparent = rgba(7, 7, 7, 0);
    assert_eq!(
        composite_pixel(clear, &vec![Some(background), Some(transparent)]),
        background
    );
    assert_eq!(
        composite_pixel(clear, &vec![Some(background), None]),
        background
    );
}

#[test]
fn last_visible_draw_wins_among_many() {
    let clear = rgba(0, 0, 0, 255);
    let first = rgba(255, 0, 0, 255);
    let second = rgba(0, 255, 0, 255);
    let invisible = rgba(9, 9, 9, 0);
    let draws = vec![Some(first), Some(second), None, Some(invisible)];
    assert_eq!(composite_pixel(clear, &draws), second);
}

#[test]
fn uncovered_pixels_keep_the_clear_color() {
    let clear = rgba(0, 0, 0, 255);
    assert_eq!(composite_pixel(clear, &vec![]), clear);
    assert_eq!(composite_pixel(clear, &vec![None, None]), clear);
}

#[test]
fn flat_red_map_renders_entirely_red() {
    // A flat map whose single background layer is all (255,0,0,255),
    // rendered at 4x4 with the camera over it: every pixel is that color.
    let clear = rgba(0, 0, 0, 255);
    let red = rgba(255, 0, 0, 255);
    let img = render_flat_frame(4, 4, clear, &vec![red]);
    assert_eq!(img.width, 4);
    assert_eq!(img.height, 4);
    assert_eq!(img.pixels.len(), 16);
    for y in 0..4 {
        for x in 0..4 {
            assert_eq!(img.pixel(x, y), red);
        }
    }
    let mut expected_bytes = Vec::new();
    for _ in 0..16 {
        expected_bytes.extend_from_slice(&[255, 0, 0, 255]);
    }
    assert_eq!(img.to_bytes(), expected_bytes);
}

#[test]
fn rendering_twice_with_identical_parameters_is_byte_identical() {
    let clear = rgba(0, 0, 0, 255);
    let layers = vec![rgba(255, 0, 0, 255), rgba(0, 255, 0, 0), rgba(1, 2, 3, 255)];
    let a = render_flat_frame(16, 9, clear, &layers);
    let b = render_flat_frame(16, 9, clear, &layers);
    assert_eq!(a.to_bytes(), b.to_bytes());
}
