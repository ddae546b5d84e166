use fontations_bridge::metrics::{measure_or_zero, BoundingBox, SourceMetrics};
use fontations_bridge::{
    advance_width_or_zero, convert_metrics, get_skia_metrics, make_font_ref, Metrics,
};

fn bits(value: f32) -> u32 {
    value.to_bits()
}

fn zero() -> Metrics {
    Metrics {
        top: 0,
        ascent: 0,
        descent: 0,
        bottom: 0,
        leading: 0,
        avg_char_width: 0,
        max_char_width: 0,
        x_min: 0,
        x_max: 0,
        x_height: 0,
        cap_height: 0,
    }
}

/// The scaler's metrics of `font` at `size`, as the library takes them.
fn scaler_metrics(font: &[u8], size: f32) -> Option<SourceMetrics> {
    let handle = make_font_ref(font, 0);
    handle.with_font(|f| {
        let m = skrifa::metrics::Metrics::new(
            f,
            skrifa::instance::Size::new(size),
            skrifa::instance::LocationRef::default(),
        );
        Some(SourceMetrics {
            ascent: bits(m.ascent),
            descent: bits(m.descent),
            leading: bits(m.leading),
            cap_height: m.cap_height.map(bits),
            x_height: m.x_height.map(bits),
            average_width: m.average_width.map(bits),
            max_width: m.max_width.map(bits),
            bounds: m.bounds.map(|b| BoundingBox {
                x_min: bits(b.x_min),
                y_min: bits(b.y_min),
                x_max: bits(b.x_max),
                y_max: bits(b.y_max),
            }),
        })
    })
}

#[test]
fn default_metrics_are_zero() {
    assert_eq!(Metrics::default(), zero());
    assert_eq!(f32::from_bits(Metrics::default().ascent), 0.0);
}

#[test]
fn present_measures_pass_through() {
    let source = SourceMetrics {
        ascent: bits(10.0),
        descent: bits(-3.0),
        leading: bits(1.5),
        cap_height: Some(bits(7.0)),
        x_height: Some(bits(5.0)),
        average_width: Some(bits(6.25)),
        max_width: Some(bits(12.0)),
        bounds: Some(BoundingBox {
            x_min: bits(-1.0),
            y_min: bits(-4.0),
            x_max: bits(13.0),
            y_max: bits(11.0),
        }),
    };
    let expected = Metrics {
        top: bits(11.0),
        ascent: bits(10.0),
        descent: bits(-3.0),
        bottom: bits(-4.0),
        leading: bits(1.5),
        avg_char_width: bits(6.25),
        max_char_width: bits(12.0),
        x_min: bits(-1.0),
        x_max: bits(13.0),
        x_height: bits(5.0),
        cap_height: bits(7.0),
    };
    assert_eq!(convert_metrics(&source), expected);
    assert_eq!(get_skia_metrics(Some(source)), expected);
}

#[test]
fn absent_measures_are_zero() {
    let source = SourceMetrics {
        ascent: bits(10.0),
        descent: bits(-3.0),
        leading: bits(1.5),
        cap_height: None,
        x_height: None,
        average_width: None,
        max_width: None,
        bounds: None,
    };
    let expected = Metrics { ascent: bits(10.0), descent: bits(-3.0), leading: bits(1.5), ..zero() };
    assert_eq!(convert_metrics(&source), expected);
    let partial = SourceMetrics { x_height: Some(bits(4.0)), max_width: Some(bits(9.0)), ..source };
    let expected = Metrics { x_height: bits(4.0), max_char_width: bits(9.0), ..expected };
    assert_eq!(convert_metrics(&partial), expected);
}

#[test]
fn no_metrics_give_the_zero_record() {
    assert_eq!(get_skia_metrics(None), zero());
    assert_eq!(get_skia_metrics(scaler_metrics(&[0u8, 1, 2], 16.0)), zero());
}

#[test]
fn advance_defaults_to_zero() {
    assert_eq!(advance_width_or_zero(None), bits(0.0));
    assert_eq!(advance_width_or_zero(Some(bits(12.5))), bits(12.5));
    assert_eq!(advance_width_or_zero(Some(bits(-0.0))), bits(-0.0));
    assert_eq!(measure_or_zero(None), 0);
    assert_eq!(measure_or_zero(Some(7)), 7);
}

#[test]
fn unscaled_metrics_of_a_font() {
    let computed = scaler_metrics(font_test_data::SIMPLE_GLYF, 0.0);
    assert!(computed.is_some());
    let record = get_skia_metrics(computed);
    let expected = Metrics {
        top: bits(950.0),
        ascent: bits(950.0),
        descent: bits(-250.0),
        bottom: bits(-250.0),
        leading: bits(0.0),
        avg_char_width: bits(1275.0),
        max_char_width: bits(0.0),
        x_min: bits(51.0),
        x_max: bits(998.0),
        x_height: bits(512.0),
        cap_height: bits(717.0),
    };
    assert_eq!(record, expected);
}

#[test]
fn scaled_metrics_of_a_font() {
    let record = get_skia_metrics(scaler_metrics(font_test_data::SIMPLE_GLYF, 512.0));
    assert_eq!(f32::from_bits(record.ascent), 475.0);
    assert_eq!(f32::from_bits(record.descent), -125.0);
    assert_eq!(f32::from_bits(record.top), 475.0);
    assert_eq!(f32::from_bits(record.x_height), 256.0);
    assert_eq!(record.max_char_width, 0);
}

#[test]
fn advance_width_of_a_glyph() {
    let handle = make_font_ref(font_test_data::VAZIRMATN_VAR, 0);
    let advance = |glyph: u16| {
        handle.with_font(|f| {
            skrifa::metrics::GlyphMetrics::new(
                f,
                skrifa::instance::Size::unscaled(),
                skrifa::instance::LocationRef::default(),
            )
            .advance_width(font_types::GlyphId::new(glyph))
            .map(bits)
        })
    };
    assert_eq!(f32::from_bits(advance_width_or_zero(advance(1))), 1336.0);
    assert_eq!(advance_width_or_zero(advance(4000)), 0);
}
