//! The nominal glyph of a code point, and the test that tells, from the
//! bytes of a character-map table, the lookups that the parser cannot finish.
//!
//! The parser takes every byte behind the range offsets of a format 4
//! subtable, up to the end of the table, as that subtable's array of glyph
//! indices. Where their number is odd it stops the program as soon as a
//! lookup reaches the array: when the subtable is the one that the parser
//! selected and the code point falls in a segment whose range offset is not
//! 0. Such a lookup is not handed to the parser; it gives glyph 0.

use crate::font::{font_view, BridgeFontRef, FontView};
use crate::table::{font_table, table_bytes};
use crate::tag::tag_bytes;
use vstd::prelude::*;

verus! {

/// The tag of the character-map table.
pub const CMAP: u32 = 0x636D_6170;

/// The format number of a segment-mapping subtable.
pub const SEGMENT_MAPPING: u16 = 4;

/// The format number of a segmented-coverage subtable.
pub const SEGMENTED_COVERAGE: u16 = 12;

/// The 16-bit number at `at`, most significant byte first.
pub open spec fn be16(bytes: Seq<u8>, at: int) -> int {
    bytes[at] * 256 + bytes[at + 1]
}

/// The 32-bit number at `at`, most significant byte first.
pub open spec fn be32(bytes: Seq<u8>, at: int) -> int {
    be16(bytes, at) * 65536 + be16(bytes, at + 2)
}

/// The number of encoding records that the table's header announces.
pub open spec fn record_count(cmap: Seq<u8>) -> int {
    be16(cmap, 2)
}

/// Whether the header and the encoding records it announces lie within the
/// table; the parser reads no other table.
pub open spec fn records_fit(cmap: Seq<u8>) -> bool {
    cmap.len() >= 4 && 4 + 8 * record_count(cmap) <= cmap.len()
}

/// The platform identifier of encoding record `i`.
pub open spec fn record_platform(cmap: Seq<u8>, i: int) -> int {
    be16(cmap, 4 + 8 * i)
}

/// The encoding identifier of encoding record `i`.
pub open spec fn record_encoding(cmap: Seq<u8>, i: int) -> int {
    be16(cmap, 6 + 8 * i)
}

/// The offset of the subtable of encoding record `i`, from the table's start.
pub open spec fn subtable_offset(cmap: Seq<u8>, i: int) -> int {
    be32(cmap, 8 + 8 * i)
}

/// How much the parser prefers a record of this platform and encoding when
/// it selects the subtable for code points: 3 for a Windows symbol map, 2
/// for a full-repertoire Unicode map, 1 for another Unicode map, 0 for a
/// record that it never selects.
pub open spec fn mapping_kind(platform: int, encoding: int) -> int {
    if platform == 0 && encoding == 5 {
        0
    } else if platform == 3 && encoding == 0 {
        3
    } else if (platform == 3 && encoding == 10) || (platform == 0 && encoding == 4) {
        2
    } else if platform == 2 || platform == 0 || (platform == 3 && encoding == 1) {
        1
    } else {
        0
    }
}

/// The preference of encoding record `i`.
pub open spec fn record_kind(cmap: Seq<u8>, i: int) -> int {
    mapping_kind(record_platform(cmap, i), record_encoding(cmap, i))
}

/// The number of segments that the format 4 subtable at `at` announces.
pub open spec fn segment_count(cmap: Seq<u8>, at: int) -> int {
    be16(cmap, at + 6) / 2
}

/// Whether the bytes from `at` on read as a format 4 subtable: the format
/// number is 4 and the four segment arrays lie within the table.
pub open spec fn reads_as_segment_mapping(cmap: Seq<u8>, at: int) -> bool {
    &&& at + 8 <= cmap.len()
    &&& be16(cmap, at) == SEGMENT_MAPPING
    &&& at + 16 + 8 * segment_count(cmap, at) <= cmap.len()
}

/// Whether the bytes from `at` on read as a format 12 subtable: the format
/// number is 12 and the groups lie within the table.
pub open spec fn reads_as_segmented_coverage(cmap: Seq<u8>, at: int) -> bool {
    &&& at + 16 <= cmap.len()
    &&& be16(cmap, at) == SEGMENTED_COVERAGE
    &&& at + 16 + 12 * be32(cmap, at + 12) <= cmap.len()
}

/// Whether the parser may select encoding record `i`: it prefers the record
/// at all, the offset is not 0, and the subtable reads in one of the two
/// formats that the parser looks code points up in.
pub open spec fn is_candidate(cmap: Seq<u8>, i: int) -> bool {
    let at = subtable_offset(cmap, i);
    &&& record_kind(cmap, i) > 0
    &&& at != 0
    &&& (reads_as_segment_mapping(cmap, at) || reads_as_segmented_coverage(cmap, at))
}

/// The record that the parser selects among the first `n`: the candidate of
/// the highest preference, the last of them where several share it; -1 where
/// there is no candidate.
pub open spec fn selected_among(cmap: Seq<u8>, n: int) -> int
    decreases n,
{
    if n <= 0 {
        -1
    } else {
        let before = selected_among(cmap, n - 1);
        if is_candidate(cmap, n - 1) && (before < 0 || record_kind(cmap, n - 1) >= record_kind(
            cmap,
            before,
        )) {
            n - 1
        } else {
            before
        }
    }
}

/// The end code of segment `k` of the format 4 subtable at `at`.
pub open spec fn end_code(cmap: Seq<u8>, at: int, k: int) -> int {
    be16(cmap, at + 14 + 2 * k)
}

/// The start code of segment `k` of the format 4 subtable at `at`.
pub open spec fn start_code(cmap: Seq<u8>, at: int, k: int) -> int {
    be16(cmap, at + 16 + 2 * segment_count(cmap, at) + 2 * k)
}

/// The range offset of segment `k` of the format 4 subtable at `at`.
pub open spec fn range_offset(cmap: Seq<u8>, at: int, k: int) -> int {
    be16(cmap, at + 16 + 6 * segment_count(cmap, at) + 2 * k)
}

/// The segment that the parser's search for `code` ends in, between `lo` and
/// `hi`: it halves the interval on the start and end codes; -1 where the
/// search finds none.
pub open spec fn found_segment(cmap: Seq<u8>, at: int, code: int, lo: int, hi: int) -> int
    decreases hi - lo,
{
    if lo < 0 || lo >= hi {
        -1
    } else {
        let mid = (lo + hi) / 2;
        if code < start_code(cmap, at, mid) {
            found_segment(cmap, at, code, lo, mid)
        } else if code > end_code(cmap, at, mid) {
            found_segment(cmap, at, code, mid + 1, hi)
        } else {
            mid
        }
    }
}

/// The segment of the format 4 subtable at `at` that the parser finds for
/// `code`, -1 where it finds none.
pub open spec fn segment_of(cmap: Seq<u8>, at: int, code: int) -> int {
    found_segment(cmap, at, code, 0, segment_count(cmap, at))
}

/// Whether the parser reads the glyph index array for `code`: the code has
/// 16 bits and its segment has a range offset other than 0.
pub open spec fn reaches_glyph_array(cmap: Seq<u8>, at: int, code: int) -> bool {
    &&& code <= 0xFFFF
    &&& segment_of(cmap, at, code) >= 0
    &&& range_offset(cmap, at, segment_of(cmap, at, code)) != 0
}

/// Whether a lookup of `codepoint` in the format 4 subtable at `at` reads
/// the glyph index array: for the code point itself, or, in a symbol map
/// that has no segment for a code point up to 0xFF, for the code point moved
/// up by 0xF000.
pub open spec fn lookup_reaches_glyph_array(
    cmap: Seq<u8>,
    at: int,
    symbol: bool,
    codepoint: int,
) -> bool {
    ||| reaches_glyph_array(cmap, at, codepoint)
    ||| {
        &&& symbol
        &&& codepoint <= 0xFF
        &&& segment_of(cmap, at, codepoint) < 0
        &&& reaches_glyph_array(cmap, at, codepoint + 0xF000)
    }
}

/// Whether the parser stops the program on a lookup of `codepoint` in a
/// table with these bytes: the table reads, the subtable that the parser
/// selects is of format 4 with an odd number of bytes from its start to the
/// table's end, and the lookup reads the glyph index array.
pub open spec fn lookup_stops(cmap: Seq<u8>, codepoint: u32) -> bool {
    let selected = selected_among(cmap, record_count(cmap));
    let at = subtable_offset(cmap, selected);
    &&& records_fit(cmap)
    &&& selected >= 0
    &&& reads_as_segment_mapping(cmap, at)
    &&& (cmap.len() - at) % 2 == 1
    &&& lookup_reaches_glyph_array(cmap, at, record_kind(cmap, selected) == 3, codepoint as int)
}

fn read_u16(bytes: &[u8], at: usize) -> (r: u16)
    requires
        at + 2 <= bytes@.len(),
    ensures
        r == be16(bytes@, at as int),
{
    (bytes[at] as u16) * 256 + (bytes[at + 1] as u16)
}

fn read_u32(bytes: &[u8], at: usize) -> (r: u32)
    requires
        at + 4 <= bytes@.len(),
    ensures
        r == be32(bytes@, at as int),
{
    let high: u32 = (bytes[at] as u32) * 256 + (bytes[at + 1] as u32);
    let low: u32 = (bytes[at + 2] as u32) * 256 + (bytes[at + 3] as u32);
    high * 65536 + low
}

/// The preference of a record of this platform and encoding.
pub fn kind_of(platform: u16, encoding: u16) -> (kind: u8)
    ensures
        kind == mapping_kind(platform as int, encoding as int),
{
    if platform == 0 && encoding == 5 {
        0
    } else if platform == 3 && encoding == 0 {
        3
    } else if (platform == 3 && encoding == 10) || (platform == 0 && encoding == 4) {
        2
    } else if platform == 2 || platform == 0 || (platform == 3 && encoding == 1) {
        1
    } else {
        0
    }
}

/// Whether the bytes from `at` on read as a format 4 or a format 12 subtable.
fn reads_as_supported(cmap: &[u8], at: usize) -> (reads: bool)
    ensures
        reads == (reads_as_segment_mapping(cmap@, at as int) || reads_as_segmented_coverage(
            cmap@,
            at as int,
        )),
{
    let len = cmap.len();
    if at > len || len - at < 8 {
        return false;
    }
    let rest = len - at;
    let format = read_u16(cmap, at);
    if format == SEGMENT_MAPPING {
        let segments: usize = (read_u16(cmap, at + 6) / 2) as usize;
        16 + 8 * segments <= rest
    } else if format == SEGMENTED_COVERAGE {
        if rest < 16 {
            return false;
        }
        let groups: u32 = read_u32(cmap, at + 12);
        groups as usize <= (rest - 16) / 12
    } else {
        false
    }
}

/// The record that the parser selects, if any, with its preference.
fn selected_record(cmap: &[u8]) -> (r: Option<(usize, u8)>)
    requires
        records_fit(cmap@),
    ensures
        match r {
            Some((index, kind)) => {
                &&& index == selected_among(cmap@, record_count(cmap@))
                &&& index < record_count(cmap@)
                &&& kind == record_kind(cmap@, index as int)
                &&& is_candidate(cmap@, index as int)
            },
            None => selected_among(cmap@, record_count(cmap@)) < 0,
        },
{
    let count: usize = read_u16(cmap, 2) as usize;
    let mut best: Option<(usize, u8)> = None;
    let mut i: usize = 0;
    while i < count
        invariant
            i <= count,
            count == record_count(cmap@),
            records_fit(cmap@),
            match best {
                Some((index, kind)) => {
                    &&& index == selected_among(cmap@, i as int)
                    &&& index < i
                    &&& kind == record_kind(cmap@, index as int)
                    &&& is_candidate(cmap@, index as int)
                },
                None => selected_among(cmap@, i as int) < 0,
            },
        decreases count - i,
    {
        let kind = kind_of(read_u16(cmap, 4 + 8 * i), read_u16(cmap, 6 + 8 * i));
        let at: u32 = read_u32(cmap, 8 + 8 * i);
        let candidate = kind > 0 && at != 0 && reads_as_supported(cmap, at as usize);
        let preferred = match best {
            Some((_, best_kind)) => kind >= best_kind,
            None => true,
        };
        if candidate && preferred {
            best = Some((i, kind));
        }
        i += 1;
    }
    best
}

/// The segment that the parser's search finds for `code` in the format 4
/// subtable at `at`.
fn find_segment(cmap: &[u8], at: usize, code: u16) -> (found: Option<usize>)
    requires
        reads_as_segment_mapping(cmap@, at as int),
    ensures
        match found {
            Some(k) => k == segment_of(cmap@, at as int, code as int) && k < segment_count(
                cmap@,
                at as int,
            ),
            None => segment_of(cmap@, at as int, code as int) < 0,
        },
{
    let len = cmap.len();
    let segments: usize = (read_u16(cmap, at + 6) / 2) as usize;
    let mut lo: usize = 0;
    let mut hi: usize = segments;
    while lo < hi
        invariant
            lo <= hi <= segments,
            len == cmap@.len(),
            segments == segment_count(cmap@, at as int),
            reads_as_segment_mapping(cmap@, at as int),
            found_segment(cmap@, at as int, code as int, lo as int, hi as int) == segment_of(
                cmap@,
                at as int,
                code as int,
            ),
        decreases hi - lo,
    {
        let mid = (lo + hi) / 2;
        let start = read_u16(cmap, at + 16 + 2 * segments + 2 * mid);
        if code < start {
            hi = mid;
        } else if code > read_u16(cmap, at + 14 + 2 * mid) {
            lo = mid + 1;
        } else {
            return Some(mid);
        }
    }
    None
}

/// Whether the parser reads the glyph index array of the format 4 subtable
/// at `at` for `code`.
fn reads_glyph_array(cmap: &[u8], at: usize, code: u16) -> (reads: bool)
    requires
        reads_as_segment_mapping(cmap@, at as int),
    ensures
        reads == reaches_glyph_array(cmap@, at as int, code as int),
{
    let len = cmap.len();
    let segments: usize = (read_u16(cmap, at + 6) / 2) as usize;
    assert(at + 16 + 8 * segments <= len);
    match find_segment(cmap, at, code) {
        Some(k) => read_u16(cmap, at + 16 + 6 * segments + 2 * k) != 0,
        None => false,
    }
}

/// Tests whether the parser stops the program on a lookup of `codepoint` in
/// a character-map table with these bytes.
pub fn cmap_lookup_stops(cmap: &[u8], codepoint: u32) -> (stops: bool)
    ensures
        stops == lookup_stops(cmap@, codepoint),
{
    let len = cmap.len();
    if len < 4 {
        return false;
    }
    let count: usize = read_u16(cmap, 2) as usize;
    if (len - 4) / 8 < count {
        return false;
    }
    let (index, kind) = match selected_record(cmap) {
        Some(selected) => selected,
        None => {
            return false;
        },
    };
    let at: usize = read_u32(cmap, 8 + 8 * index) as usize;
    if at > len || len - at < 8 || read_u16(cmap, at) != SEGMENT_MAPPING {
        return false;
    }
    if (len - at) % 2 == 0 || codepoint > 0xFFFF {
        return false;
    }
    let code: u16 = codepoint as u16;
    if reads_glyph_array(cmap, at, code) {
        return true;
    }
    if kind == 3 && code <= 0xFF {
        match find_segment(cmap, at, code) {
            Some(_) => false,
            None => reads_glyph_array(cmap, at, code + 0xF000),
        }
    } else {
        false
    }
}

/// The glyph that a font maps `codepoint` to, if any.
pub open spec fn glyph_of(view: FontView, codepoint: u32) -> Option<u16> {
    if view.glyphs.contains_key(codepoint) {
        Some(view.glyphs[codepoint])
    } else {
        None
    }
}

/// The bytes of a font's character-map table, none where it has no such
/// table.
pub open spec fn cmap_of(view: FontView) -> Seq<u8> {
    table_bytes(Some(view), CMAP)
}

/// Calls `skrifa::MetadataProvider::charmap` and `Charmap::map` on the
/// result: the nominal glyph of a code point, `None` where the selected
/// character map has no entry for it. Left out are the lookups on which the
/// parser's access to the glyph index array stops the program, which
/// `lookup_stops` tells from the table's bytes. The parser multiplies 16-bit
/// and 32-bit counts as `usize`; those products cannot overflow where
/// `usize` has 64 bits.
#[verifier::external_body]
fn mapped_glyph(font: &read_fonts::FontRef, codepoint: u32) -> (r: Option<u16>)
    requires
        !lookup_stops(cmap_of(font_view(*font)), codepoint),
    ensures
        r == glyph_of(font_view(*font), codepoint),
{
    Some(skrifa::MetadataProvider::charmap(font).map(codepoint)?.to_u16())
}

/// The glyph that the lookup gives for `codepoint` in a font: the mapped
/// glyph where the character map maps the code point, none where it does
/// not or where the parser cannot finish the lookup.
pub open spec fn looked_up(view: FontView, codepoint: u32) -> Option<u16> {
    if lookup_stops(cmap_of(view), codepoint) {
        None
    } else {
        glyph_of(view, codepoint)
    }
}

/// The glyph that a font gives for `codepoint`: 0 where the lookup gives
/// none or there is no font.
pub open spec fn glyph_or_zero(font: Option<FontView>, codepoint: u32) -> u16 {
    match font {
        Some(view) => match looked_up(view, codepoint) {
            Some(glyph) => glyph,
            None => 0,
        },
        None => 0,
    }
}

/// Looks `codepoint` up in `font`, after testing on the bytes of its
/// character-map table that the parser can finish the lookup.
pub fn checked_glyph<'a>(font: &read_fonts::FontRef<'a>, codepoint: u32) -> (r: Option<u16>)
    ensures
        r == looked_up(font_view(*font), codepoint),
{
    let cmap: &[u8] = match font_table(font, tag_bytes(CMAP)) {
        Some(bytes) => bytes,
        None => &[],
    };
    assert(cmap@ =~= cmap_of(font_view(*font)));
    if cmap_lookup_stops(cmap, codepoint) {
        None
    } else {
        mapped_glyph(font, codepoint)
    }
}

/// The nominal glyph for `codepoint`: 0 where the font maps none, where the
/// parser cannot finish the lookup, or where the handle is invalid.
pub fn lookup_glyph_or_zero(font_ref: &BridgeFontRef, codepoint: u32) -> (glyph: u16)
    ensures
        glyph == glyph_or_zero(font_ref@, codepoint),
{
    let lookup = |f: &read_fonts::FontRef| -> (r: Option<u16>)
        ensures
            r == looked_up(font_view(*f), codepoint),
        { checked_glyph(f, codepoint) };
    let found = font_ref.with_font(lookup);
    proof {
        font_ref.view_is_font_view();
    }
    match found {
        Some(glyph) => glyph,
        None => 0,
    }
}

} // verus!
