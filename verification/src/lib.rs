//! Typed, queryable access to the fonts held in a caller-owned byte buffer.

pub mod charmap;
pub mod coords;
pub mod font;
pub mod laws;
pub mod metrics;
pub mod names;
pub mod outline;
pub mod table;
pub mod tag;

pub use coords::{resolve_into_normalized_coords, BridgeNormalizedCoords};
pub use charmap::{cmap_lookup_stops, lookup_glyph_or_zero};
pub use font::{
    font_ref_is_valid, make_font_ref, make_font_ref_internal, num_glyphs, units_per_em_or_zero,
    BridgeFontRef,
};
pub use metrics::{advance_width_or_zero, convert_metrics, get_skia_metrics, Metrics};
pub use names::{
    english_or_first_font_name, family_name, get_localized_strings, localized_name_next,
    postscript_name, BridgeLocalizedName, BridgeLocalizedStrings,
};
pub use outline::{to_recorder_space, PathEvent};
pub use table::table_data;
