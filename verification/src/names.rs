//! Family and PostScript names, and a cursor over the localized entries of a
//! name.

use crate::font::{font_view, BridgeFontRef, FontView, LocalizedName};
use vstd::prelude::*;

verus! {

#[verifier::external_type_specification]
#[verifier::external_body]
pub struct ExLocalizedStrings<'a>(skrifa::string::LocalizedStrings<'a>);

/// Name identifier of the font family name.
pub const FAMILY_NAME: u16 = 1;

/// Name identifier of the PostScript name.
pub const POSTSCRIPT_NAME: u16 = 6;

/// The entries that an iterator over localized strings has yet to yield, in
/// the order in which it yields them.
pub uninterp spec fn remaining_names(strings: skrifa::string::LocalizedStrings<'_>) -> Seq<
    LocalizedName,
>;

/// Calls `skrifa::MetadataProvider::localized_strings` with the name
/// identifier `id`: an iterator over the entries of that identifier in the
/// font's naming table, in table order.
#[verifier::external_body]
fn localized_strings<'a>(font: &read_fonts::FontRef<'a>, id: u16) -> (r:
    skrifa::string::LocalizedStrings<'a>)
    ensures
        remaining_names(r) == font_view(*font).names_for(id),
{
    skrifa::MetadataProvider::localized_strings(font, skrifa::string::StringId::new(id))
}

/// Calls `Default::default` of `skrifa::string::LocalizedStrings`: an iterator
/// that yields nothing.
#[verifier::external_body]
fn no_strings<'a>() -> (r: skrifa::string::LocalizedStrings<'a>)
    ensures
        remaining_names(r) == Seq::<LocalizedName>::empty(),
{
    skrifa::string::LocalizedStrings::default()
}

/// Calls `Iterator::next` of `skrifa::string::LocalizedStrings` and renders the
/// entry with `to_string` and `language`: the first remaining entry leaves
/// the iterator; an exhausted iterator yields `None` and stays exhausted.
#[verifier::external_body]
fn next_string(strings: &mut skrifa::string::LocalizedStrings<'_>) -> (r: Option<
    (String, Option<String>),
>)
    ensures
        match r {
            Some((string, language)) => {
                &&& remaining_names(*old(strings)).len() > 0
                &&& string@ == remaining_names(*old(strings))[0].string
                &&& language_view(language) == remaining_names(*old(strings))[0].language
                &&& remaining_names(*final(strings)) == remaining_names(*old(strings)).drop_first()
            },
            None => {
                &&& remaining_names(*old(strings)).len() == 0
                &&& remaining_names(*final(strings)).len() == 0
            },
        },
{
    let entry = strings.next()?;
    Some((entry.to_string(), entry.language().map(|language| language.to_string())))
}

/// The view of an optional language tag.
pub open spec fn language_view(language: Option<String>) -> Option<Seq<char>> {
    match language {
        Some(tag) => Some(tag@),
        None => None,
    }
}

/// Index of the first entry whose language is `language`; the length of
/// `names` where there is none.
pub open spec fn position_of(names: Seq<LocalizedName>, language: Option<Seq<char>>) -> int
    decreases names.len(),
{
    if names.len() == 0 {
        0
    } else if names[0].language == language {
        0
    } else {
        1 + position_of(names.drop_first(), language)
    }
}

/// Whether some entry has the language `language`.
pub open spec fn has_language(names: Seq<LocalizedName>, language: Option<Seq<char>>) -> bool {
    position_of(names, language) < names.len()
}

/// The tag of United States English.
pub open spec fn en_us() -> Option<Seq<char>> {
    Some("en-US"@)
}

/// The tag of English.
pub open spec fn en() -> Option<Seq<char>> {
    Some("en"@)
}

/// Index of the preferred entry of a non-empty list: the first in United
/// States English; failing that the first in English; failing that the first
/// of all.
pub open spec fn preferred_index(names: Seq<LocalizedName>) -> int {
    if has_language(names, en_us()) {
        position_of(names, en_us())
    } else if has_language(names, en()) {
        position_of(names, en())
    } else {
        0
    }
}

/// The text of the preferred entry, `None` for an empty list.
pub open spec fn preferred_name(names: Seq<LocalizedName>) -> Option<Seq<char>> {
    if names.len() == 0 {
        None
    } else {
        Some(names[preferred_index(names)].string)
    }
}

/// Where `position_of` is below the length it is the least index of an entry
/// with the language; where it is not, no entry has the language.
pub proof fn position_is_first_match(names: Seq<LocalizedName>, language: Option<Seq<char>>)
    ensures
        0 <= position_of(names, language) <= names.len(),
        has_language(names, language) ==> names[position_of(names, language)].language
            == language,
        forall|i: int|
            0 <= i < position_of(names, language) && i < names.len() ==> (
            #[trigger] names[i]).language != language,
    decreases names.len(),
{
    if names.len() > 0 && names[0].language != language {
        let rest = names.drop_first();
        position_is_first_match(rest, language);
        assert forall|i: int|
            0 <= i < position_of(names, language) && i < names.len() implies (
        #[trigger] names[i]).language != language by {
            if i > 0 {
                assert(names[i] == rest[i - 1]);
            }
        }
        if has_language(names, language) {
            assert(names[position_of(names, language)] == rest[position_of(rest, language)]);
        }
    }
}

/// Picks the preferred entry of the name `name_id` of `font`: walks the
/// entries in table order, returns the first in United States English at
/// once, and otherwise keeps the first in English, or the first of all while
/// none in English has come.
pub fn preferred_string<'a>(font: &read_fonts::FontRef<'a>, name_id: u16) -> (r: Option<String>)
    ensures
        match r {
            Some(string) => preferred_name(font_view(*font).names_for(name_id)) == Some(string@),
            None => preferred_name(font_view(*font).names_for(name_id)) is None,
        },
{
    let mut strings = localized_strings(font, name_id);
    let ghost names = remaining_names(strings);
    let us_english = "en-US".to_owned();
    let english = "en".to_owned();
    let mut best: Option<String> = None;
    let mut best_is_english = false;
    let ghost mut seen: int = 0;
    let ghost mut english_at: int = -1;
    proof {
        reveal_strlit("en-US");
        reveal_strlit("en");
        assert("en-US"@.len() != "en"@.len());
    }
    loop
        invariant
            0 <= seen <= names.len(),
            names == font_view(*font).names_for(name_id),
            remaining_names(strings) == names.skip(seen),
            us_english@ == "en-US"@,
            english@ == "en"@,
            en_us() != en(),
            forall|k: int| 0 <= k < seen ==> (#[trigger] names[k]).language != en_us(),
            -1 <= english_at < seen,
            best_is_english == (english_at >= 0),
            english_at < 0 ==> forall|k: int|
                0 <= k < seen ==> (#[trigger] names[k]).language != en(),
            english_at >= 0 ==> {
                &&& names[english_at].language == en()
                &&& forall|k: int| 0 <= k < english_at ==> (#[trigger] names[k]).language != en()
                &&& (best matches Some(string) && string@ == names[english_at].string)
            },
            english_at < 0 && seen == 0 ==> best is None,
            english_at < 0 && seen > 0 ==> (best matches Some(string) && string@
                == names[0].string),
        decreases names.len() - seen,
    {
        match next_string(&mut strings) {
            Some((string, language)) => {
                assert(names.skip(seen)[0] == names[seen]);
                assert(names.skip(seen).drop_first() =~= names.skip(seen + 1));
                let in_us_english = match &language {
                    Some(tag) => *tag == us_english,
                    None => false,
                };
                if in_us_english {
                    proof {
                        position_is_first_match(names, en_us());
                    }
                    return Some(string);
                }
                let in_english = match &language {
                    Some(tag) => *tag == english,
                    None => false,
                };
                if in_english && !best_is_english {
                    best = Some(string);
                    best_is_english = true;
                    proof {
                        english_at = seen;
                    }
                } else if best.is_none() {
                    best = Some(string);
                }
                proof {
                    seen = seen + 1;
                }
            },
            None => {
                proof {
                    position_is_first_match(names, en_us());
                    position_is_first_match(names, en());
                }
                return best;
            },
        }
    }
}

/// The entries of name identifier `id` in a font; none where there is no font.
pub open spec fn names_of(font: Option<FontView>, id: u16) -> Seq<LocalizedName> {
    match font {
        Some(view) => view.names_for(id),
        None => Seq::empty(),
    }
}

/// The preferred text of the name `name_id`: `Some` exactly where the handle
/// is valid and the font has an entry for that name.
pub fn english_or_first_font_name<'a>(font_ref: &BridgeFontRef<'a>, name_id: u16) -> (r: Option<
    String,
>)
    ensures
        match r {
            Some(string) => preferred_name(names_of(font_ref@, name_id)) == Some(string@),
            None => preferred_name(names_of(font_ref@, name_id)) is None,
        },
{
    let pick = |f: &read_fonts::FontRef<'a>| -> (r: Option<String>)
        ensures
            (match r {
                Some(string) => preferred_name(font_view(*f).names_for(name_id)) == Some(string@),
                None => preferred_name(font_view(*f).names_for(name_id)) is None,
            }),
        { preferred_string(f, name_id) };
    proof {
        font_ref.view_is_font_view();
    }
    font_ref.with_font(pick)
}

/// The text of the family name, empty where the font has none or the handle
/// is invalid.
pub open spec fn family_name_of(font: Option<FontView>) -> Seq<char> {
    match preferred_name(names_of(font, FAMILY_NAME)) {
        Some(string) => string,
        None => Seq::empty(),
    }
}

/// The family name: the preferred entry of the family-name identifier, the
/// empty string where there is none.
pub fn family_name(font_ref: &BridgeFontRef) -> (name: String)
    ensures
        name@ == family_name_of(font_ref@),
{
    match english_or_first_font_name(font_ref, FAMILY_NAME) {
        Some(name) => name,
        None => String::new(),
    }
}

/// The PostScript name: where the font has an entry for it, the preferred one
/// is stored in `out_string` and the result is true; otherwise `out_string`
/// is left as it was and the result is false.
pub fn postscript_name(font_ref: &BridgeFontRef, out_string: &mut String) -> (found: bool)
    ensures
        found == (preferred_name(names_of(font_ref@, POSTSCRIPT_NAME)) is Some),
        found ==> Some(final(out_string)@) == preferred_name(names_of(font_ref@, POSTSCRIPT_NAME)),
        !found ==> final(out_string)@ == old(out_string)@,
{
    let postscript_name = english_or_first_font_name(font_ref, POSTSCRIPT_NAME);
    match postscript_name {
        Some(name) => {
            *out_string = name;
            true
        },
        _ => false,
    }
}

/// A forward-only cursor over the localized entries of one name.
pub struct BridgeLocalizedStrings<'a> {
    localized_strings: skrifa::string::LocalizedStrings<'a>,
}

impl<'a> View for BridgeLocalizedStrings<'a> {
    type V = Seq<LocalizedName>;

    /// The entries that the cursor has yet to yield.
    closed spec fn view(&self) -> Seq<LocalizedName> {
        remaining_names(self.localized_strings)
    }
}

/// One entry as the cursor hands it out: the text and the language tag, the
/// tag empty where the entry has none.
pub struct BridgeLocalizedName {
    pub string: String,
    pub language: String,
}

/// The language tag as the cursor hands it out.
pub open spec fn language_or_empty(language: Option<Seq<char>>) -> Seq<char> {
    match language {
        Some(tag) => tag,
        None => Seq::empty(),
    }
}

/// A cursor over the family-name entries of the font, in table order; over
/// nothing where the handle is invalid.
pub fn get_localized_strings<'a>(font_ref: &BridgeFontRef<'a>) -> (cursor: BridgeLocalizedStrings<
    'a,
>)
    ensures
        cursor@ == names_of(font_ref@, FAMILY_NAME),
{
    let open = |f: &read_fonts::FontRef<'a>| -> (r: Option<skrifa::string::LocalizedStrings<'a>>)
        ensures
            (match r {
                Some(strings) => remaining_names(strings) == font_view(*f).names_for(FAMILY_NAME),
                None => false,
            }),
        { Some(localized_strings(f, FAMILY_NAME)) };
    proof {
        font_ref.view_is_font_view();
    }
    let localized_strings = match font_ref.with_font(open) {
        Some(strings) => strings,
        None => no_strings(),
    };
    BridgeLocalizedStrings { localized_strings }
}

/// Advances the cursor. Where an entry remains it is stored in
/// `out_localized_name`, the cursor moves past it and the result is true;
/// otherwise both are left as they were and the result is false.
pub fn localized_name_next(
    bridge_localized_strings: &mut BridgeLocalizedStrings,
    out_localized_name: &mut BridgeLocalizedName,
) -> (found: bool)
    ensures
        found == (old(bridge_localized_strings)@.len() > 0),
        found ==> {
            &&& final(out_localized_name).string@ == old(bridge_localized_strings)@[0].string
            &&& final(out_localized_name).language@ == language_or_empty(
                old(bridge_localized_strings)@[0].language,
            )
            &&& final(bridge_localized_strings)@ == old(bridge_localized_strings)@.drop_first()
        },
        !found ==> {
            &&& final(out_localized_name).string@ == old(out_localized_name).string@
            &&& final(out_localized_name).language@ == old(out_localized_name).language@
            &&& final(bridge_localized_strings)@ == old(bridge_localized_strings)@
        },
{
    match next_string(&mut bridge_localized_strings.localized_strings) {
        Some((string, language)) => {
            out_localized_name.string = string;
            out_localized_name.language = match language {
                Some(tag) => tag,
                None => String::new(),
            };
            true
        },
        _ => false,
    }
}

} // verus!
