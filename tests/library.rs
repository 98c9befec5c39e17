use mandlebrot_set::color::{Channel, Color, ColorPalette};
use mandlebrot_set::escape::EscapeCounter;
use mandlebrot_set::utility::{IntervalU32, Utility};
use mandlebrot_set::{ImageDim, MandlebrotImage};

fn black() -> Color {
    Color::gray(Channel::new(0, 1))
}

fn white() -> Color {
    Color::gray(Channel::new(1, 1))
}

/// Runs the escape-time iteration for the point `(x0, y0)` with the counter.
fn escape(x0: f64, y0: f64, mut counter: EscapeCounter) -> EscapeCounter {
    let mut x: f64 = 0.0;
    let mut y: f64 = 0.0;
    let mut x2: f64 = 0.0;
    let mut y2: f64 = 0.0;
    while counter.advance(x2 + y2 <= 4.0) {
        y = 2.0 * x * y + y0;
        x = x2 - y2 + x0;
        x2 = x * x;
        y2 = y * y;
    }
    counter
}

fn image(width: u32, height: u32, steps: u32) -> MandlebrotImage {
    let palette = ColorPalette::init_grayscale(steps);
    let count = palette.color_count;
    MandlebrotImage::new("image.ppm".to_string(), ImageDim::new(width, height), palette, count)
}

fn render(img: &MandlebrotImage) -> Vec<u8> {
    let width = img.image_dim.x.max;
    let height = img.image_dim.y.max;
    let mut escapes: Vec<EscapeCounter> = Vec::new();
    for p_y in 0..height {
        for p_x in 0..width {
            let x0 = -2.0 + (p_x as f64 / width as f64) * (0.47 - -2.0);
            let y0 = -1.12 + (p_y as f64 / height as f64) * (1.12 - -1.12);
            escapes.push(escape(x0, y0, img.escape_counter()));
        }
    }
    img.image_bytes(&escapes)
}

#[test]
fn clamp_projects_into_range() {
    let i = IntervalU32::new(3, 9);
    assert_eq!(i.clamp(0), 3);
    assert_eq!(i.clamp(2), 3);
    assert_eq!(i.clamp(3), 3);
    assert_eq!(i.clamp(5), 5);
    assert_eq!(i.clamp(9), 9);
    assert_eq!(i.clamp(10), 9);
    assert_eq!(i.clamp(u32::MAX), 9);
    for x in 0..20u32 {
        let c = i.clamp(x);
        assert!(i.contains(c));
        if i.contains(x) {
            assert_eq!(c, x);
        }
    }
}

#[test]
fn interval_predicates_and_size() {
    let i = IntervalU32::new(0, 1600);
    assert_eq!(i.size(), 1600);
    assert!(i.contains(0));
    assert!(i.contains(1600));
    assert!(!i.contains(1601));
    assert!(!i.surrounds(0));
    assert!(!i.surrounds(1600));
    assert!(i.surrounds(1));
    assert_eq!(i.adj_min(5), 5);
    assert_eq!(i.adj_max(5), 1605);
    let e = IntervalU32::new(4, 4);
    assert_eq!(e.size(), 0);
    assert!(e.contains(4));
    assert!(!e.surrounds(4));
}

#[test]
fn image_dim_spans_from_zero() {
    let d = ImageDim::new(1600, 900);
    assert_eq!(d.x, IntervalU32::new(0, 1600));
    assert_eq!(d.y, IntervalU32::new(0, 900));
}

#[test]
fn random_int_range_stays_in_range() {
    for _ in 0..200 {
        let r = Utility::random_int_range(IntervalU32::new(10, 20));
        assert!((10..20).contains(&r));
    }
    assert_eq!(Utility::random_int_range(IntervalU32::new(7, 8)), 7);
}

#[test]
fn grayscale_palette_with_no_grays_is_black_then_white() {
    let p = ColorPalette::init_grayscale(0);
    assert_eq!(p.color_count, 2);
    assert_eq!(p.colors, vec![black(), white()]);
}

#[test]
fn grayscale_palette_ramp() {
    let p = ColorPalette::init_grayscale(4);
    assert_eq!(p.color_count, 6);
    assert_eq!(p.colors.len(), 6);
    assert_eq!(p.colors[0], black());
    for k in 1..5u32 {
        assert_eq!(p.colors[k as usize], Color::gray(Channel::new(k - 1, 4)));
    }
    assert_eq!(p.colors[5], white());
    let levels: Vec<u32> = p.colors.iter().map(|c| c.r.quantize()).collect();
    assert_eq!(levels, vec![0, 0, 63, 127, 191, 255]);
    for c in &p.colors {
        assert_eq!(c.r, c.g);
        assert_eq!(c.g, c.b);
    }
}

#[test]
fn quantize_boundaries() {
    assert_eq!(Channel::new(1, 1).quantize(), 255);
    assert_eq!(Channel::new(0, 1).quantize(), 0);
    assert_eq!(Channel::new(999, 1000).quantize(), 255);
    assert_eq!(Channel::new(1, 2).quantize(), 127);
    assert_eq!(Channel::new(1, 4).quantize(), 63);
    assert_eq!(Channel::new(7, 2).quantize(), 255);
    assert_eq!(Channel::new(1, 256).quantize(), 0);
    assert_eq!(Channel::new(u32::MAX, 1).quantize(), 255);
}

#[test]
fn plot_pixel_writes_triplet_line() {
    let mut out: Vec<u8> = Vec::new();
    MandlebrotImage::plot_pixel(white(), &mut out);
    MandlebrotImage::plot_pixel(black(), &mut out);
    let gray = Color::new(Channel::new(1, 2), Channel::new(1, 4), Channel::new(0, 3));
    MandlebrotImage::plot_pixel(gray, &mut out);
    assert_eq!(String::from_utf8(out).unwrap(), "255 255 255 \n0 0 0 \n127 63 0 \n");
}

#[test]
fn header_names_width_then_height() {
    assert_eq!(image(2, 1, 0).header(), b"P3\n2 1\n255\n".to_vec());
    assert_eq!(image(1600, 900, 35).header(), b"P3\n1600 900\n255\n".to_vec());
    assert_eq!(image(0, 10, 1).header(), b"P3\n0 10\n255\n".to_vec());
    let text = String::from_utf8(image(4294967295, 1234567, 3).header()).unwrap();
    let line: Vec<&str> = text.lines().collect();
    assert_eq!(line[0], "P3");
    assert_eq!(line[1], "4294967295 1234567");
    assert_eq!(line[2], "255");
}

#[test]
fn point_in_main_cardioid_reaches_budget() {
    let img = image(2, 1, 35);
    let c = escape(0.0, 0.0, img.escape_counter());
    assert_eq!(c.count(), img.color_count - 1);
    assert_eq!(img.color_for(&c), white());
}

#[test]
fn far_point_escapes_at_once() {
    let img = image(2, 1, 35);
    let c = escape(2.0, 2.0, img.escape_counter());
    assert!(c.count() <= 1);
}

#[test]
fn counter_advance_follows_budget() {
    let mut c = EscapeCounter::new(3);
    assert_eq!(c.max_iterations(), 3);
    assert!(c.advance(true));
    assert_eq!(c.count(), 1);
    assert!(!c.advance(false));
    assert_eq!(c.count(), 1);
    assert!(c.advance(true));
    assert!(!c.advance(true));
    assert_eq!(c.count(), 2);
    let mut one = EscapeCounter::new(1);
    assert!(!one.advance(true));
    assert_eq!(one.count(), 0);
}

#[test]
fn counts_always_index_the_palette() {
    let img = image(40, 30, 5);
    for p_y in 0..30u32 {
        for p_x in 0..40u32 {
            let x0 = -2.0 + (p_x as f64 / 40.0) * 2.47;
            let y0 = -1.12 + (p_y as f64 / 30.0) * 2.24;
            let c = escape(x0, y0, img.escape_counter());
            assert!(c.count() < img.color_count);
            let _ = img.color_for(&c);
        }
    }
}

#[test]
fn render_two_by_one_without_grays() {
    let img = image(2, 1, 0);
    assert_eq!(img.color_count, 2);
    let bytes = render(&img);
    let text = String::from_utf8(bytes).unwrap();
    assert!(text.starts_with("P3\n2 1\n255\n"));
    let body = &text["P3\n2 1\n255\n".len()..];
    let lines: Vec<&str> = body.split_inclusive('\n').collect();
    assert_eq!(lines.len(), 2);
    for line in &lines {
        assert!(line.ends_with(" \n"));
        let parts: Vec<&str> = line.trim_end().split(' ').collect();
        assert_eq!(parts.len(), 3);
        for p in parts {
            let v: u32 = p.parse().unwrap();
            assert!(v <= 255);
        }
    }
    assert_eq!(text, "P3\n2 1\n255\n255 255 255 \n255 255 255 \n");
}

#[test]
fn render_rows_in_order() {
    let img = image(3, 2, 2);
    let text = String::from_utf8(render(&img)).unwrap();
    let lines: Vec<&str> = text.lines().collect();
    assert_eq!(lines.len(), 3 + 6);
    assert_eq!(lines[1], "3 2");
}
