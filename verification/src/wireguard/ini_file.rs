//! Reading INI text with `rust-ini`: the sections it finds and the first
//! value of a key in the first section of a name.
use vstd::prelude::*;

verus! {

#[verifier::external_type_specification]
#[verifier::external_body]
pub struct ExIni(ini::Ini);

#[verifier::external_type_specification]
#[verifier::external_body]
pub struct ExProperties(ini::Properties);

#[verifier::external_type_specification]
#[verifier::external_body]
pub struct ExIniParseError(ini::ParseError);

/// The sections of an INI document in the order they were read, each with its
/// name (`None` for the general section) and its (key, value) pairs in order.
pub type IniSections = Seq<(Option<Seq<char>>, Seq<(Seq<char>, Seq<char>)>)>;

/// The sections that an `ini::Ini` holds.
pub uninterp spec fn ini_sections(ini: ini::Ini) -> Seq<(Option<Seq<char>>, Seq<(Seq<char>, Seq<char>)>)>;

/// The (key, value) pairs that an `ini::Properties` holds, in order.
pub uninterp spec fn properties_entries(p: ini::Properties) -> Seq<(Seq<char>, Seq<char>)>;

/// What `ini::Ini::load_from_str` reads from a text: its sections, or `None`
/// when the text is not a valid INI document.
pub uninterp spec fn ini_parse(text: Seq<char>) -> Option<Seq<(Option<Seq<char>>, Seq<(Seq<char>, Seq<char>)>)>>;

/// The pairs of the first section named `name`.
pub open spec fn section_lookup(secs: IniSections, name: Seq<char>) -> Option<Seq<(Seq<char>, Seq<char>)>>
    decreases secs.len(),
{
    if secs.len() == 0 {
        None
    } else if secs[0].0 == Some(name) {
        Some(secs[0].1)
    } else {
        section_lookup(secs.drop_first(), name)
    }
}

/// The first value stored under `key`.
pub open spec fn property_lookup(props: Seq<(Seq<char>, Seq<char>)>, key: Seq<char>) -> Option<Seq<char>>
    decreases props.len(),
{
    if props.len() == 0 {
        None
    } else if props[0].0 == key {
        Some(props[0].1)
    } else {
        property_lookup(props.drop_first(), key)
    }
}

/// Reads an INI document with `ini::Ini::load_from_str` (default options).
/// Claims only that the document it reads is the named result of the text.
#[verifier::external_body]
pub(crate) fn ini_load_from_str(text: &str) -> (r: Result<ini::Ini, ini::ParseError>)
    ensures
        r is Ok <==> ini_parse(text@) is Some,
        r matches Ok(i) ==> ini_parse(text@) == Some(ini_sections(i)),
{
    ini::Ini::load_from_str(text)
}

/// `ini::Ini::section`: the first section named `name`, as the crate's
/// multimap hands back the first value stored under a key.
#[verifier::external_body]
pub(crate) fn ini_section<'a>(ini: &'a ini::Ini, name: &str) -> (r: Option<&'a ini::Properties>)
    ensures
        match r {
            Some(p) => section_lookup(ini_sections(*ini), name@) == Some(properties_entries(*p)),
            None => section_lookup(ini_sections(*ini), name@) is None,
        },
{
    ini.section(Some(name))
}

/// `ini::Properties::get`: the first value stored under `key`.
#[verifier::external_body]
pub(crate) fn properties_get(props: &ini::Properties, key: &str) -> (r: Option<String>)
    ensures
        match r {
            Some(v) => property_lookup(properties_entries(*props), key@) == Some(v@),
            None => property_lookup(properties_entries(*props), key@) is None,
        },
{
    match props.get(key) {
        Some(v) => Some(v.to_owned()),
        None => None,
    }
}

} // verus!
