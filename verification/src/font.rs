//! Font handles: which font of a buffer a handle stands for, and the integer
//! queries answered from it.

use vstd::prelude::*;

verus! {

#[verifier::external_type_specification]
#[verifier::external_body]
pub struct ExFontRef<'a>(read_fonts::FontRef<'a>);

#[verifier::external_type_specification]
#[verifier::external_body]
pub struct ExCollectionRef<'a>(read_fonts::CollectionRef<'a>);

#[verifier::external_type_specification]
#[verifier::external_body]
pub struct ExReadError(read_fonts::ReadError);

/// One entry of a font's naming table: the decoded text and, where the entry
/// has one, its BCP-47 language tag.
pub struct LocalizedName {
    pub string: Seq<char>,
    pub language: Option<Seq<char>>,
}

/// What a font holds, as far as this library reads it.
pub struct FontView {
    /// The bytes of each table that the table directory resolves, by tag.
    pub tables: Map<u32, Seq<u8>>,
    /// The nominal glyph of each code point that the selected character map
    /// maps.
    pub glyphs: Map<u32, u16>,
    /// The glyph count of the maximum profile, where that table reads.
    pub glyph_count: Option<u16>,
    /// The design units per em of the header, where that table reads.
    pub units_per_em: Option<u16>,
    /// The naming-table entries of each name identifier that has any, in
    /// table order.
    pub names: Map<u16, Seq<LocalizedName>>,
}

impl FontView {
    /// The entries of name identifier `id`, in table order; empty where the
    /// font has none.
    pub open spec fn names_for(self, id: u16) -> Seq<LocalizedName> {
        if self.names.contains_key(id) {
            self.names[id]
        } else {
            Seq::empty()
        }
    }
}

/// What a byte buffer holds.
pub enum FileView {
    /// One font.
    Font(FontView),
    /// A collection; each member is a font or does not read as one.
    Collection(Seq<Option<FontView>>),
    /// Neither.
    Unreadable,
}

/// What the parser finds in a font.
pub uninterp spec fn font_view(font: read_fonts::FontRef<'_>) -> FontView;

/// What the parser finds in a collection: one entry per member that its
/// header counts.
pub uninterp spec fn collection_view(collection: read_fonts::CollectionRef<'_>) -> Seq<Option<FontView>>;

/// What the parser finds in a buffer.
pub uninterp spec fn file_view(data: Seq<u8>) -> FileView;

/// A parsed buffer: a single font or a collection.
pub enum FontFile<'a> {
    Font(read_fonts::FontRef<'a>),
    Collection(read_fonts::CollectionRef<'a>),
}

/// Calls `read_fonts::FileRef::new`. The outcome is a function of the bytes
/// alone, named `file_view`: a single font, a collection, or an error where
/// the buffer reads as neither. The parser multiplies a 32-bit member count
/// as `usize`; that product cannot overflow where `usize` has 64 bits.
#[verifier::external_body]
fn read_file<'a>(data: &'a [u8]) -> (r: Result<FontFile<'a>, read_fonts::ReadError>)
    ensures
        match r {
            Ok(FontFile::Font(font)) => file_view(data@) == FileView::Font(font_view(font)),
            Ok(FontFile::Collection(collection)) => file_view(data@) == FileView::Collection(
                collection_view(collection),
            ),
            Err(_) => file_view(data@) == FileView::Unreadable,
        },
{
    match read_fonts::FileRef::new(data) {
        Ok(read_fonts::FileRef::Font(font)) => Ok(FontFile::Font(font)),
        Ok(read_fonts::FileRef::Collection(collection)) => Ok(FontFile::Collection(collection)),
        Err(e) => Err(e),
    }
}

/// Calls `read_fonts::CollectionRef::get`. It fails for an index at or past
/// the member count of the header, and for a member whose table directory
/// does not read; otherwise it returns that member.
#[verifier::external_body]
fn collection_get<'a>(collection: &read_fonts::CollectionRef<'a>, index: u32) -> (r: Result<
    read_fonts::FontRef<'a>,
    read_fonts::ReadError,
>)
    ensures
        match r {
            Ok(font) => index < collection_view(*collection).len() && collection_view(
                *collection,
            )[index as int] == Some(font_view(font)),
            Err(_) => index >= collection_view(*collection).len() || collection_view(
                *collection,
            )[index as int] is None,
        },
{
    collection.get(index)
}

/// The font that `index` selects in a buffer: the font itself where the
/// buffer is a single font, whatever the index; the member at `index` where it
/// is a collection and has a readable member there; none otherwise.
pub open spec fn resolve(file: FileView, index: u32) -> Option<FontView> {
    match file {
        FileView::Font(font) => Some(font),
        FileView::Collection(members) => if index < members.len() {
            members[index as int]
        } else {
            None
        },
        FileView::Unreadable => None,
    }
}

/// A handle on one font of a buffer, or an invalid handle.
pub struct BridgeFontRef<'a>(Option<read_fonts::FontRef<'a>>);

impl<'a> View for BridgeFontRef<'a> {
    type V = Option<FontView>;

    closed spec fn view(&self) -> Option<FontView> {
        match self.0 {
            Some(font) => Some(font_view(font)),
            None => None,
        }
    }
}

impl<'a> BridgeFontRef<'a> {
    /// The parsed font that the handle holds.
    pub closed spec fn font(&self) -> Option<read_fonts::FontRef<'a>> {
        self.0
    }

    /// The handle's view is the view of the font it holds.
    pub proof fn view_is_font_view(&self)
        ensures
            self@ == match self.font() {
                Some(font) => Some(font_view(font)),
                None => None,
            },
    {
    }

    /// Applies `f` to the font of a valid handle; an invalid handle gives
    /// `None` and `f` is not called.
    pub fn with_font<T, F>(&self, f: F) -> (r: Option<T>) where
        F: FnOnce(&read_fonts::FontRef<'a>) -> Option<T>,

        requires
            self.font() matches Some(font) ==> f.requires((&font,)),
        ensures
            match self.font() {
                Some(font) => f.ensures((&font,), r),
                None => r is None,
            },
    {
        match &self.0 {
            Some(font) => f(font),
            None => None,
        }
    }
}

/// Parses `font_data` and selects the font at `index`: `Ok` exactly where
/// `resolve` finds a font.
pub fn make_font_ref_internal<'a>(font_data: &'a [u8], index: u32) -> (r: Result<
    read_fonts::FontRef<'a>,
    read_fonts::ReadError,
>)
    ensures
        match r {
            Ok(font) => resolve(file_view(font_data@), index) == Some(font_view(font)),
            Err(_) => resolve(file_view(font_data@), index) is None,
        },
{
    match read_file(font_data) {
        Ok(file) => match file {
            FontFile::Font(font) => Ok(font),
            FontFile::Collection(collection) => collection_get(&collection, index),
        },
        Err(e) => Err(e),
    }
}

/// Builds the handle for the font at `index` of `font_data`; the handle is
/// invalid where the buffer holds no such font.
pub fn make_font_ref<'a>(font_data: &'a [u8], index: u32) -> (r: BridgeFontRef<'a>)
    ensures
        r@ == resolve(file_view(font_data@), index),
{
    match make_font_ref_internal(font_data, index) {
        Ok(font) => BridgeFontRef(Some(font)),
        Err(_) => BridgeFontRef(None),
    }
}

/// Whether the handle stands for a font.
pub fn font_ref_is_valid(bridge_font_ref: &BridgeFontRef) -> (valid: bool)
    ensures
        valid == (bridge_font_ref@ is Some),
{
    bridge_font_ref.0.is_some()
}

/// Calls `read_fonts::TableProvider::maxp` and `Maxp::num_glyphs` on the
/// result: `None` where the table is missing or does not read.
#[verifier::external_body]
fn glyph_count(font: &read_fonts::FontRef) -> (r: Option<u16>)
    ensures
        r == font_view(*font).glyph_count,
{
    Some(read_fonts::TableProvider::maxp(font).ok()?.num_glyphs())
}

/// Calls `read_fonts::TableProvider::head` and `Head::units_per_em` on the
/// result: `None` where the table is missing or does not read.
#[verifier::external_body]
fn units_per_em(font: &read_fonts::FontRef) -> (r: Option<u16>)
    ensures
        r == font_view(*font).units_per_em,
{
    Some(read_fonts::TableProvider::head(font).ok()?.units_per_em())
}

/// The glyph count of a font, 0 where it is unavailable or there is no font.
pub open spec fn glyph_count_or_zero(font: Option<FontView>) -> u16 {
    match font {
        Some(view) => match view.glyph_count {
            Some(count) => count,
            None => 0,
        },
        None => 0,
    }
}

/// The units per em of a font, 0 where they are unavailable or there is no
/// font.
pub open spec fn upem_or_zero(font: Option<FontView>) -> u16 {
    match font {
        Some(view) => match view.units_per_em {
            Some(upem) => upem,
            None => 0,
        },
        None => 0,
    }
}

/// The number of glyphs, 0 where it is unavailable or the handle is invalid.
pub fn num_glyphs(font_ref: &BridgeFontRef) -> (count: u16)
    ensures
        count == glyph_count_or_zero(font_ref@),
{
    let found = font_ref.with_font(glyph_count);
    match found {
        Some(count) => count,
        None => 0,
    }
}

/// The design units per em, 0 where they are unavailable or the handle is
/// invalid.
pub fn units_per_em_or_zero(font_ref: &BridgeFontRef) -> (upem: u16)
    ensures
        upem == upem_or_zero(font_ref@),
{
    let found = font_ref.with_font(units_per_em);
    match found {
        Some(upem) => upem,
        None => 0,
    }
}

} // verus!
