//! Random access to raw table bytes with size-query and truncation rules.

use crate::font::{font_view, BridgeFontRef, FontView};
use crate::tag::{tag_bytes, tag_value};
use vstd::prelude::*;

verus! {

/// Number of bytes of a table of `table_len` bytes that lie at or after `offset`.
pub open spec fn available(table_len: int, offset: int) -> int {
    if offset <= table_len {
        table_len - offset
    } else {
        0
    }
}

/// Number of bytes that a read at `offset` reports for a destination of
/// `capacity` bytes: the whole remainder when the destination is empty,
/// otherwise the remainder cut to the destination's size.
pub open spec fn reported_len(table_len: int, offset: int, capacity: int) -> int {
    let rest = available(table_len, offset);
    if capacity == 0 || rest <= capacity {
        rest
    } else {
        capacity
    }
}

/// The destination after a read at `offset`: its first `reported_len` bytes,
/// where it has room for any, are the table's bytes from `offset` on, and the
/// bytes behind them are kept.
pub open spec fn written(table: Seq<u8>, offset: int, before: Seq<u8>) -> Seq<u8> {
    let n = reported_len(table.len() as int, offset, before.len() as int);
    Seq::new(
        before.len(),
        |i: int|
            if before.len() > 0 && i < n {
                table[offset + i]
            } else {
                before[i]
            },
    )
}

/// Copies `table[offset .. offset + n]` to the front of `data`, where `n` is the
/// remainder of the table cut to the size of `data`, and returns `n`; with an
/// empty `data` nothing is copied and the whole remainder is returned.
pub fn copy_table_range(table: &[u8], offset: usize, data: &mut [u8]) -> (copied: usize)
    ensures
        copied == reported_len(table@.len() as int, offset as int, old(data)@.len() as int),
        final(data)@.len() == old(data)@.len(),
        final(data)@ == written(table@, offset as int, old(data)@),
{
    let table_len = table.len();
    let capacity = data.len();
    let rest: usize = table_len.saturating_sub(offset);
    if capacity == 0 {
        return rest;
    }
    let count: usize = if rest <= capacity { rest } else { capacity };
    let mut i: usize = 0;
    while i < count
        invariant
            i <= count,
            count <= capacity,
            count <= rest,
            rest == available(table_len as int, offset as int),
            table_len == table@.len(),
            capacity == data@.len(),
            data@.len() == old(data)@.len(),
            forall|k: int| 0 <= k < i ==> data@[k] == table@[offset + k],
            forall|k: int| i <= k < capacity ==> data@[k] == old(data)@[k],
        decreases count - i,
    {
        data[i] = table[offset + i];
        i += 1;
    }
    assert(data@ =~= written(table@, offset as int, old(data)@));
    count
}

/// Calls `read_fonts::FontRef::table_data` with the tag made of `tag`'s four
/// bytes: the bytes of the table that the directory records under the tag,
/// `None` where it records none or the record points outside the buffer.
/// The parser adds a record's 32-bit offset and length as `usize`; that sum
/// cannot overflow where `usize` has 64 bits.
#[verifier::external_body]
pub(crate) fn font_table<'a>(font: &read_fonts::FontRef<'a>, tag: [u8; 4]) -> (r: Option<&'a [u8]>)
    ensures
        match r {
            Some(bytes) => table_of(font_view(*font), tag_value(tag@)) == Some(bytes@),
            None => table_of(font_view(*font), tag_value(tag@)) is None,
        },
{
    Some(font.table_data(font_types::Tag::from_be_bytes(tag))?.as_bytes())
}

/// The bytes of the table with `tag`, if the font has it.
pub open spec fn table_of(view: FontView, tag: u32) -> Option<Seq<u8>> {
    if view.tables.contains_key(tag) {
        Some(view.tables[tag])
    } else {
        None
    }
}

/// The bytes that a read of the table with `tag` draws on: the table's, or
/// none where the font lacks the table or there is no font.
pub open spec fn table_bytes(font: Option<FontView>, tag: u32) -> Seq<u8> {
    match font {
        Some(view) => match table_of(view, tag) {
            Some(bytes) => bytes,
            None => Seq::empty(),
        },
        None => Seq::empty(),
    }
}

/// Reads the table with `tag` from `offset`. With an empty `data` it returns
/// the number of bytes from `offset` to the table's end and writes nothing.
/// Otherwise it copies as many of those bytes as `data` has room for to the
/// front of `data` and returns their number. A missing table, an invalid
/// handle and an offset past the table's end all give 0.
pub fn table_data<'a>(font_ref: &BridgeFontRef<'a>, tag: u32, offset: usize, data: &mut [u8]) -> (copied:
    usize)
    ensures
        copied == reported_len(
            table_bytes(font_ref@, tag).len() as int,
            offset as int,
            old(data)@.len() as int,
        ),
        final(data)@ == written(table_bytes(font_ref@, tag), offset as int, old(data)@),
{
    let bytes = tag_bytes(tag);
    let lookup = |f: &read_fonts::FontRef<'a>| -> (r: Option<&'a [u8]>)
        ensures
            (match r {
                Some(found) => table_of(font_view(*f), tag) == Some(found@),
                None => table_of(font_view(*f), tag) is None,
            }),
        { font_table(f, bytes) };
    let found = font_ref.with_font(lookup);
    proof {
        font_ref.view_is_font_view();
    }
    let table: &[u8] = match found {
        Some(bytes) => bytes,
        None => &[],
    };
    assert(table@ =~= table_bytes(font_ref@, tag));
    copy_table_range(table, offset, data)
}

} // verus!
