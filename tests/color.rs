use circles::{
    CircleConfig, Color, ColorBit, ColorConfig, ColorMode, ColorParamConfig, Hue, Opacity,
    RGBColor, HSL, UNIT,
};

fn circle_config() -> CircleConfig {
    CircleConfig {
        width: 80_000,
        height: 60_000,
        max_position_delta: 630,
        max_color_delta: 10,
        color_config: ColorConfig {
            hue_config: ColorParamConfig { max_delta: 200, min_value: 0, max_value: 36_000 },
            saturation_config: ColorParamConfig { max_delta: 500, min_value: 4_000, max_value: 10_000 },
            lightness_config: ColorParamConfig { max_delta: 500, min_value: 1_000, max_value: 9_000 },
        },
    }
}

fn rgb(r: u8, g: u8, b: u8) -> RGBColor {
    RGBColor { r: ColorBit(r), g: ColorBit(g), b: ColorBit(b), a: Opacity(5_000) }
}

#[test]
fn gray_converts_to_zero_hue_and_saturation() {
    for v in [0u8, 1, 128, 254, 255] {
        let hsl = HSL::from_rgb(&rgb(v, v, v));
        assert_eq!(hsl.hue.0, 0);
        assert_eq!(hsl.saturation, 0);
        assert_eq!(hsl.lightness, 0);
    }
}

#[test]
fn primaries_convert_to_their_hues() {
    let red = HSL::from_rgb(&rgb(255, 0, 0));
    assert_eq!((red.hue.0, red.saturation, red.lightness), (0, 10_000, 10_000));
    let green = HSL::from_rgb(&rgb(0, 255, 0));
    assert_eq!(green.hue.0, 12_000);
    let magenta = HSL::from_rgb(&rgb(255, 0, 255));
    assert_eq!(magenta.hue.0, 30_000);
    let blue = HSL::from_rgb(&rgb(0, 0, 255));
    assert_eq!(blue.hue.0, 24_000);
    assert_eq!(blue.opacity, Opacity(5_000));
}

#[test]
fn conversion_rounds_down() {
    // 6000 * 128 / 255 = 3011.76...
    let orange = HSL::from_rgb(&rgb(255, 128, 0));
    assert_eq!(orange.hue.0, 3_011);
    // red largest, blue above green: wrapped by a full turn
    let pink = HSL::from_rgb(&rgb(200, 50, 100));
    // 36000 + 6000 * (50 - 100) / 150 = 34000
    assert_eq!(pink.hue.0, 34_000);
    // 10000 * 150 / 200 = 7500
    assert_eq!(pink.saturation, 7_500);
    // sum 250, 10000 * 150 / 250 = 6000
    assert_eq!(pink.lightness, 6_000);
    // sum 400 > 255: the distance from white, 510 - 400 = 110; 10000 * 50 / 110 = 4545
    let pale = HSL::from_rgb(&rgb(225, 175, 200));
    assert_eq!(pale.lightness, 4_545);
}

#[test]
fn rgb_text() {
    let c = Color::RGB(rgb(10, 20, 255));
    assert_eq!(c.to_string(), "rgb(10, 20, 255, 0.5000)");
    assert_eq!(rgb(0, 0, 0).to_rgba(), "rgb(0, 0, 0, 0.5000)");
}

#[test]
fn hsl_text_with_and_without_opacity() {
    let c = HSL { hue: Hue(12_345), saturation: 5_000, lightness: 7_525, opacity: Opacity(UNIT) };
    assert_eq!(c.to_hsla(), "hsl(123.45, 50.00%, 75.25%, 1.0000)");
    assert_eq!(c.to_hsl(), "hsl(123.45, 50.00%, 75.25%)");
    assert_eq!(Color::HSL(c).to_string(), "hsl(123.45, 50.00%, 75.25%, 1.0000)");
    let d = HSL { hue: Hue(-1_550), saturation: 7, lightness: 0, opacity: Opacity(42) };
    assert_eq!(d.to_hsla(), "hsl(-15.50, 0.07%, 0.00%, 0.0042)");
}

#[test]
fn darker_lowers_lightness_and_stops_at_zero() {
    let c = HSL { hue: Hue(100), saturation: 5_000, lightness: 7_525, opacity: Opacity(1) };
    assert_eq!(c.to_slightly_darker_color().lightness, 6_525);
    let d = HSL { lightness: 500, ..c };
    assert_eq!(d.to_slightly_darker_color().lightness, 0);
    assert_eq!(Color::HSL(c).to_slightly_darker_color(), "hsl(1.00, 50.00%, 65.25%)");
}

#[test]
fn darker_rgb_goes_through_hsl() {
    // red: lightness 100.00% before, 90.00% after
    assert_eq!(rgb(255, 0, 0).to_slightly_darker_color(), "hsl(0.00, 100.00%, 90.00%)");
    assert_eq!(Color::RGB(rgb(255, 0, 0)).to_slightly_darker_color(), "hsl(0.00, 100.00%, 90.00%)");
}

#[test]
fn color_bit_steps_saturate() {
    let config = circle_config();
    for _ in 0..500 {
        let mut high = ColorBit(250);
        high.update(&config);
        assert!(high.0 >= 240);
        let mut low = ColorBit(3);
        low.update(&config);
        assert!(low.0 <= 13);
    }
}

#[test]
fn opacity_is_redrawn_within_unit() {
    for _ in 0..500 {
        let mut o = Opacity::rand();
        assert!((0..=UNIT).contains(&o.0));
        o.update();
        assert!((0..=UNIT).contains(&o.0));
    }
}

#[test]
fn hsl_walks_stay_in_their_bounds() {
    let config = circle_config();
    let mut c = HSL::new(&config);
    for _ in 0..1000 {
        let before = c;
        c.update(&config);
        assert!((0..=36_000).contains(&c.hue.0));
        assert!((4_000..=10_000).contains(&c.saturation));
        assert!((1_000..=9_000).contains(&c.lightness));
        assert!((c.hue.0 - before.hue.0).abs() <= 200);
        assert!((c.saturation - before.saturation).abs() <= 500);
        assert!((0..=UNIT).contains(&c.opacity.0));
    }
}

#[test]
fn rgb_channels_move_at_most_the_delta() {
    let config = circle_config();
    let mut c = RGBColor::new();
    for _ in 0..1000 {
        let before = c;
        c.update(&config);
        assert!((c.r.0 as i32 - before.r.0 as i32).abs() <= 10);
        assert!((c.g.0 as i32 - before.g.0 as i32).abs() <= 10);
        assert!((c.b.0 as i32 - before.b.0 as i32).abs() <= 10);
    }
}

#[test]
fn new_color_follows_the_mode() {
    let config = circle_config();
    assert!(matches!(Color::new(&ColorMode::RGB, &config), Color::RGB(_)));
    let mut c = Color::new(&ColorMode::HSL, &config);
    assert!(matches!(c, Color::HSL(_)));
    c.update(&config);
    assert!(matches!(c, Color::HSL(_)));
}
