//! What holds of the library as a whole, stated over the models that the
//! functions' contracts use.

use crate::charmap::{
    cmap_of, glyph_of, glyph_or_zero, is_candidate, lookup_stops, record_kind, selected_among,
};
use crate::font::{
    file_view, glyph_count_or_zero, resolve, upem_or_zero, FileView, FontView, LocalizedName,
};
use crate::names::{
    en, en_us, family_name_of, has_language, names_of, position_is_first_match,
    preferred_index, preferred_name, POSTSCRIPT_NAME,
};
use crate::outline::{negated, recorder_event, recorder_events, PathEvent};
use crate::table::{reported_len, table_bytes, written};
use vstd::prelude::*;

verus! {

/// A buffer that reads neither as a font nor as a collection gives an invalid
/// handle at every index, and every query on that handle gives its default:
/// glyph 0, zero glyphs, zero units per em, no name entries, an empty family
/// name, no PostScript name, and a table read that reports 0 and leaves the
/// destination as it was.
pub proof fn unreadable_buffer_gives_defaults(
    data: Seq<u8>,
    index: u32,
    codepoint: u32,
    name_id: u16,
    tag: u32,
    offset: nat,
    destination: Seq<u8>,
)
    requires
        file_view(data) is Unreadable,
    ensures
        resolve(file_view(data), index) is None,
        glyph_or_zero(resolve(file_view(data), index), codepoint) == 0,
        glyph_count_or_zero(resolve(file_view(data), index)) == 0,
        upem_or_zero(resolve(file_view(data), index)) == 0,
        names_of(resolve(file_view(data), index), name_id).len() == 0,
        family_name_of(resolve(file_view(data), index)).len() == 0,
        preferred_name(names_of(resolve(file_view(data), index), POSTSCRIPT_NAME)) is None,
        reported_len(
            table_bytes(resolve(file_view(data), index), tag).len() as int,
            offset as int,
            destination.len() as int,
        ) == 0,
        written(table_bytes(resolve(file_view(data), index), tag), offset as int, destination)
            == destination,
{
    assert(written(Seq::<u8>::empty(), offset as int, destination) =~= destination);
}

/// A lookup that the parser can finish gives the glyph that the character
/// map holds for the code point, and glyph 0 where it holds none; a lookup
/// that the parser cannot finish gives glyph 0.
pub proof fn lookup_gives_mapped_glyph_or_zero(view: FontView, codepoint: u32)
    ensures
        !lookup_stops(cmap_of(view), codepoint) && glyph_of(view, codepoint) is Some ==> Some(
            glyph_or_zero(Some(view), codepoint),
        ) == glyph_of(view, codepoint),
        glyph_of(view, codepoint) is None ==> glyph_or_zero(Some(view), codepoint) == 0,
        lookup_stops(cmap_of(view), codepoint) ==> glyph_or_zero(Some(view), codepoint) == 0,
{
}

/// The record selected among the first `n` is a candidate that no other
/// candidate among them is preferred to, and the last of those that share
/// its preference; there is none exactly where no record is a candidate.
pub proof fn selected_is_last_of_highest_preference(cmap: Seq<u8>, n: int)
    requires
        n >= 0,
    ensures
        -1 <= selected_among(cmap, n) < n || n == 0 && selected_among(cmap, n) == -1,
        selected_among(cmap, n) >= 0 ==> is_candidate(cmap, selected_among(cmap, n)),
        forall|j: int|
            0 <= j < n && #[trigger] is_candidate(cmap, j) ==> {
                &&& selected_among(cmap, n) >= 0
                &&& record_kind(cmap, j) <= record_kind(cmap, selected_among(cmap, n))
                &&& record_kind(cmap, j) == record_kind(cmap, selected_among(cmap, n)) ==> j
                    <= selected_among(cmap, n)
            },
    decreases n,
{
    if n > 0 {
        selected_is_last_of_highest_preference(cmap, n - 1);
    }
}

/// The handle of a single font does not depend on the index.
pub proof fn single_font_ignores_index(data: Seq<u8>, i: u32, j: u32)
    requires
        file_view(data) is Font,
    ensures
        resolve(file_view(data), i) is Some,
        resolve(file_view(data), i) == resolve(file_view(data), j),
{
}

/// In a collection an index at or past the member count gives an invalid
/// handle, and an index below it gives the member at that index: the same
/// font, or the same failure, each time.
pub proof fn collection_index_selects_member(data: Seq<u8>, index: u32)
    requires
        file_view(data) is Collection,
    ensures
        index >= file_view(data)->Collection_0.len() ==> resolve(file_view(data), index) is None,
        index < file_view(data)->Collection_0.len() ==> resolve(file_view(data), index)
            == file_view(data)->Collection_0[index as int],
{
}

/// A read at offset 0 into an empty destination reports the table's length,
/// and a read at the table's length reports 0 for any destination.
pub proof fn size_query_and_end_offset(table_len: nat, capacity: nat)
    ensures
        reported_len(table_len as int, 0, 0) == table_len,
        reported_len(table_len as int, table_len as int, capacity as int) == 0,
{
}

/// A read into a destination that has room for at least one byte never
/// reports more than the destination holds, and never more than the table
/// has from the offset on.
pub proof fn copy_fits_destination(table_len: nat, offset: nat, capacity: nat)
    requires
        capacity > 0,
    ensures
        0 <= reported_len(table_len as int, offset as int, capacity as int) <= capacity,
        offset + reported_len(table_len as int, offset as int, capacity as int) <= table_len
            || reported_len(table_len as int, offset as int, capacity as int) == 0,
{
}

/// An offset past the table's end reports 0 and leaves the destination as it
/// was.
pub proof fn offset_past_end_reads_nothing(table: Seq<u8>, offset: nat, destination: Seq<u8>)
    requires
        offset >= table.len(),
    ensures
        reported_len(table.len() as int, offset as int, destination.len() as int) == 0,
        written(table, offset as int, destination) == destination,
{
    assert(written(table, offset as int, destination) =~= destination);
}

/// A read at offset 0 into a destination as long as the table reports the
/// table's length and leaves the table's bytes in the destination.
pub proof fn full_read_round_trips(table: Seq<u8>, destination: Seq<u8>)
    requires
        destination.len() == table.len(),
    ensures
        reported_len(table.len() as int, 0, destination.len() as int) == table.len(),
        written(table, 0, destination) == table,
{
    assert(written(table, 0, destination) =~= table);
}

/// The Y of every end point, of a quadratic control point and of the first
/// cubic control point reaches the recorder negated; every X and the Y of the
/// second cubic control point reach it unchanged; the kind of event is kept.
pub proof fn recorder_receives_flipped_y(event: PathEvent)
    ensures
        match (event, recorder_event(event)) {
            (PathEvent::MoveTo { x, y }, PathEvent::MoveTo { x: rx, y: ry }) => rx == x && ry
                == negated(y),
            (PathEvent::LineTo { x, y }, PathEvent::LineTo { x: rx, y: ry }) => rx == x && ry
                == negated(y),
            (
                PathEvent::QuadTo { cx0, cy0, x, y },
                PathEvent::QuadTo { cx0: rcx0, cy0: rcy0, x: rx, y: ry },
            ) => rcx0 == cx0 && rcy0 == negated(cy0) && rx == x && ry == negated(y),
            (
                PathEvent::CurveTo { cx0, cy0, cx1, cy1, x, y },
                PathEvent::CurveTo { cx0: rcx0, cy0: rcy0, cx1: rcx1, cy1: rcy1, x: rx, y: ry },
            ) => rcx0 == cx0 && rcy0 == negated(cy0) && rcx1 == cx1 && rcy1 == cy1 && rx == x
                && ry == negated(y),
            (PathEvent::Close, PathEvent::Close) => true,
            _ => false,
        },
{
}

/// The recorder receives one event per source event, in the source's order.
pub proof fn recorder_keeps_order(events: Seq<PathEvent>, i: int)
    requires
        0 <= i < events.len(),
    ensures
        recorder_events(events).len() == events.len(),
        recorder_events(events)[i] == recorder_event(events[i]),
{
}

/// Where some entry is in United States English or in English, the preferred
/// entry is the first in United States English, or the first in English if
/// there is none in United States English.
pub proof fn english_entry_is_preferred(names: Seq<LocalizedName>, i: int)
    requires
        0 <= i < names.len(),
        names[i].language == en_us() || names[i].language == en(),
    ensures
        preferred_name(names) == Some(names[preferred_index(names)].string),
        0 <= preferred_index(names) < names.len(),
        names[preferred_index(names)].language == en_us() || names[preferred_index(
            names,
        )].language == en(),
        names[preferred_index(names)].language == en() ==> !has_language(names, en_us()),
{
    reveal_strlit("en-US");
    reveal_strlit("en");
    assert("en-US"@.len() != "en"@.len());
    position_is_first_match(names, en_us());
    position_is_first_match(names, en());
}

/// Where no entry is in United States English or in English, the preferred
/// entry is the first one.
pub proof fn first_entry_is_fallback(names: Seq<LocalizedName>)
    requires
        names.len() > 0,
        forall|i: int|
            0 <= i < names.len() ==> {
                &&& (#[trigger] names[i]).language != en_us()
                &&& names[i].language != en()
            },
    ensures
        preferred_name(names) == Some(names[0].string),
{
    position_is_first_match(names, en_us());
    position_is_first_match(names, en());
}

/// A font without an entry for a name has no preferred text for it: the
/// family name is empty and the PostScript name is absent.
pub proof fn absent_name_gives_default(names: Seq<LocalizedName>)
    requires
        names.len() == 0,
    ensures
        preferred_name(names) is None,
{
}

} // verus!
