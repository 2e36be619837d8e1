use roughgen::fixed::{fx_add, fx_div, fx_len, fx_mul, fx_sub, FX_LIM};
use roughgen::trig::{atan2_fx, cos_fx, sin_fx, HALF_PI_FX, PI_FX};
use roughgen::{generate_msdf, BoxState, Point, RoughGenerator, RoughOptions, Tool, UserInputState};

const ONE: i64 = 65536;

#[test]
fn fixed_point_arithmetic() {
    // 2.0 * 1.5 == 3.0
    assert_eq!(fx_mul(2 * ONE, 3 * ONE / 2), 3 * ONE);
    // 1.0 / 2.0 == 0.5
    assert_eq!(fx_div(ONE, 2 * ONE), ONE / 2);
    assert_eq!(fx_div(ONE, 0), 0);
    assert_eq!(fx_sub(5 * ONE, 7 * ONE), -2 * ONE);
    // Saturation instead of overflow.
    assert_eq!(fx_add(FX_LIM, FX_LIM), FX_LIM);
    assert_eq!(fx_mul(FX_LIM, -FX_LIM), -FX_LIM);
    // A 3-4-5 triangle has an exact fixed-point hypotenuse.
    assert_eq!(fx_len(3 * ONE, 4 * ONE), 5 * ONE);
    assert_eq!(fx_len(0, 0), 0);
}

#[test]
fn trig_approximations() {
    assert_eq!(sin_fx(0), 0);
    // sin(pi/2) is one, up to the rational approximation's error.
    assert!((sin_fx(HALF_PI_FX) - ONE).abs() <= 64);
    assert!(sin_fx(PI_FX).abs() <= 64);
    // The second half turn is negative.
    assert!(sin_fx(PI_FX + HALF_PI_FX) < -ONE / 2);
    assert!((cos_fx(0) - ONE).abs() <= 64);
    assert!(cos_fx(HALF_PI_FX).abs() <= 256);
    // atan2 on the axes.
    assert_eq!(atan2_fx(0, 100 * ONE), 0);
    assert!((atan2_fx(100 * ONE, 0) - HALF_PI_FX).abs() <= 256);
    assert!((atan2_fx(0, 0)).abs() == 0);
    // The first diagonal sits a quarter turn up.
    assert!((atan2_fx(ONE, ONE) - HALF_PI_FX / 2).abs() <= 256);
}

#[test]
fn default_style_values() {
    let opts = RoughOptions::default();
    assert_eq!(opts.roughness, ONE);
    assert_eq!(opts.bowing, ONE);
    assert_eq!(opts.stroke_width, ONE);
    assert_eq!(opts.max_randomness_offset, 2 * ONE);
    assert_eq!(opts.curve_step_count, 32);
    assert!(!opts.disable_multi_stroke);
    assert!(opts.seed.is_none());
    assert_eq!(opts.curve_tightness, 0);
    assert!(!opts.preserve_vertices);
    assert!(!opts.dotted);
}

#[test]
fn state_enums_compare() {
    assert_eq!(Tool::Pen, Tool::Pen);
    assert_ne!(Tool::Rectangle, Tool::Circle);
    let states = [Tool::Pen, Tool::Rectangle, Tool::Circle, Tool::Arrow, Tool::Text, Tool::Eraser, Tool::Select];
    assert_eq!(states.len(), 7);
    assert_ne!(BoxState::Idle, BoxState::Editing);
    assert_eq!(BoxState::Selected, BoxState::Selected);
    assert_ne!(UserInputState::Panning, UserInputState::Dragging);
    assert_eq!(UserInputState::Drawing, UserInputState::Drawing);
}

#[test]
fn msdf_output_shape() {
    let width: u32 = 8;
    let height: u32 = 8;
    let mut bitmap: Vec<u8> = vec![0; (width * height) as usize];
    // A filled square in the middle of the glyph cell.
    for y in 2..6 {
        for x in 2..6 {
            bitmap[(y * width + x) as usize] = 255;
        }
    }
    let field = generate_msdf(&bitmap, width, height);
    assert_eq!(field.len(), 64 * 64 * 3);
    // The center texel lies inside the shape, so its distance encoding
    // is above the midpoint; a corner texel lies outside, below it.
    let mid = ((32 * 64 + 32) * 3 + 1) as usize;
    let corner = 1usize;
    assert!(field[mid] > 127);
    assert!(field[corner] < 128);
}

#[test]
fn msdf_channels_are_ordered() {
    let width: u32 = 4;
    let height: u32 = 4;
    let bitmap: Vec<u8> = vec![255; (width * height) as usize];
    let field = generate_msdf(&bitmap, width, height);
    assert_eq!(field.len(), 12288);
    // The first channel carries a positive offset and the third a
    // negative one, so r >= b holds texel by texel.
    for texel in field.chunks(3) {
        assert!(texel[0] >= texel[2]);
    }
}

#[test]
fn extreme_coordinates_saturate_without_panic() {
    let opts = RoughOptions::default();
    let mut g = RoughGenerator::new(Some(1));
    let far = Point { x: i64::MAX, y: i64::MIN };
    let near = Point { x: -3 * ONE, y: 7 * ONE };
    let line = g.rough_line(far, near, &opts);
    assert_eq!(line.len(), 11);
    for pnt in &line {
        assert!(pnt.x.abs() <= FX_LIM && pnt.y.abs() <= FX_LIM);
    }
    let lines = g.rough_rectangle(far, far, &opts);
    assert_eq!(lines.len(), 8);
}
