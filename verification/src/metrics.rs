//! Global font metrics as handed to the host, derived from the metrics that
//! the scaler computed.
//!
//! Every measure is held as the bit pattern of an IEEE 754 single-precision
//! number; the all-zero pattern is the number 0.0.

use vstd::prelude::*;

verus! {

/// A bounding box as the scaler reports it.
#[derive(Clone, Copy, Debug, PartialEq, Eq, Structural)]
pub struct BoundingBox {
    pub x_min: u32,
    pub y_min: u32,
    pub x_max: u32,
    pub y_max: u32,
}

/// The measures of the scaler's global metrics that the host record is
/// derived from; an optional one is `None` where the font lacks its source.
#[derive(Clone, Copy, Debug, PartialEq, Eq, Structural)]
pub struct SourceMetrics {
    pub ascent: u32,
    pub descent: u32,
    pub leading: u32,
    pub cap_height: Option<u32>,
    pub x_height: Option<u32>,
    pub average_width: Option<u32>,
    pub max_width: Option<u32>,
    pub bounds: Option<BoundingBox>,
}

/// The metrics record of the host: eleven measures, each 0.0 where it is
/// unavailable.
#[derive(Clone, Copy, Debug, PartialEq, Eq, Structural)]
pub struct Metrics {
    pub top: u32,
    pub ascent: u32,
    pub descent: u32,
    pub bottom: u32,
    pub leading: u32,
    pub avg_char_width: u32,
    pub max_char_width: u32,
    pub x_min: u32,
    pub x_max: u32,
    pub x_height: u32,
    pub cap_height: u32,
}

/// A measure, or 0.0 where it is absent.
pub open spec fn or_zero(measure: Option<u32>) -> u32 {
    match measure {
        Some(bits) => bits,
        None => 0,
    }
}

/// The record in which every measure is 0.0.
pub open spec fn zero_metrics() -> Metrics {
    Metrics {
        top: 0,
        ascent: 0,
        descent: 0,
        bottom: 0,
        leading: 0,
        avg_char_width: 0,
        max_char_width: 0,
        x_min: 0,
        x_max: 0,
        x_height: 0,
        cap_height: 0,
    }
}

/// The host record for the scaler's metrics: the bounds give top, bottom and
/// the horizontal extent, the line metrics pass through, and each absent
/// measure is 0.0.
pub open spec fn converted(metrics: SourceMetrics) -> Metrics {
    Metrics {
        top: match metrics.bounds {
            Some(b) => b.y_max,
            None => 0,
        },
        bottom: match metrics.bounds {
            Some(b) => b.y_min,
            None => 0,
        },
        x_min: match metrics.bounds {
            Some(b) => b.x_min,
            None => 0,
        },
        x_max: match metrics.bounds {
            Some(b) => b.x_max,
            None => 0,
        },
        ascent: metrics.ascent,
        descent: metrics.descent,
        leading: metrics.leading,
        avg_char_width: or_zero(metrics.average_width),
        max_char_width: or_zero(metrics.max_width),
        x_height: or_zero(metrics.x_height),
        cap_height: or_zero(metrics.cap_height),
    }
}

impl Default for Metrics {
    fn default() -> (r: Metrics)
        ensures
            r == zero_metrics(),
    {
        Metrics {
            top: 0,
            ascent: 0,
            descent: 0,
            bottom: 0,
            leading: 0,
            avg_char_width: 0,
            max_char_width: 0,
            x_min: 0,
            x_max: 0,
            x_height: 0,
            cap_height: 0,
        }
    }
}

/// A measure, or 0.0 where it is absent.
pub fn measure_or_zero(measure: Option<u32>) -> (bits: u32)
    ensures
        bits == or_zero(measure),
{
    match measure {
        Some(bits) => bits,
        None => 0,
    }
}

/// Derives the host record from the scaler's metrics.
pub fn convert_metrics(skrifa_metrics: &SourceMetrics) -> (r: Metrics)
    ensures
        r == converted(*skrifa_metrics),
{
    Metrics {
        top: match skrifa_metrics.bounds {
            Some(b) => b.y_max,
            None => 0,
        },
        bottom: match skrifa_metrics.bounds {
            Some(b) => b.y_min,
            None => 0,
        },
        x_min: match skrifa_metrics.bounds {
            Some(b) => b.x_min,
            None => 0,
        },
        x_max: match skrifa_metrics.bounds {
            Some(b) => b.x_max,
            None => 0,
        },
        ascent: skrifa_metrics.ascent,
        descent: skrifa_metrics.descent,
        leading: skrifa_metrics.leading,
        avg_char_width: measure_or_zero(skrifa_metrics.average_width),
        max_char_width: measure_or_zero(skrifa_metrics.max_width),
        x_height: measure_or_zero(skrifa_metrics.x_height),
        cap_height: measure_or_zero(skrifa_metrics.cap_height),
    }
}

/// The host record for the metrics that the scaler computed for a valid
/// handle, the all-zero record where there were none.
pub fn get_skia_metrics(computed: Option<SourceMetrics>) -> (r: Metrics)
    ensures
        r == match computed {
            Some(metrics) => converted(metrics),
            None => zero_metrics(),
        },
{
    match computed {
        Some(metrics) => convert_metrics(&metrics),
        None => Metrics::default(),
    }
}

/// The advance width that the scaler computed, 0.0 where it computed none.
pub fn advance_width_or_zero(computed: Option<u32>) -> (bits: u32)
    ensures
        bits == or_zero(computed),
{
    measure_or_zero(computed)
}

} // verus!
