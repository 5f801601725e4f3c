//! Decoding of INI-style configuration text into sections.
//!
//! The grammar itself is a black box supplied by an outside parser; this
//! module names its result and exposes it as a list of sections in
//! declaration order, each with its key/value pairs.

use vstd::prelude::*;

verus! {

/// The mathematical form of one section: its name and its entries, a value of
/// `None` standing for a key declared without a value.
pub type SectionEntriesV = Seq<(Seq<char>, Option<Seq<char>>)>;

/// One decoded configuration section.
#[derive(Clone, Debug)]
pub struct IniSection {
    pub name: String,
    pub entries: Vec<(String, Option<String>)>,
}

/// The view of one key/value entry.
pub open spec fn entry_view(e: (String, Option<String>)) -> (Seq<char>, Option<Seq<char>>) {
    (
        e.0@,
        match e.1 {
            Some(v) => Some(v@),
            None => None,
        },
    )
}

/// The view of a section's entry list.
pub open spec fn entries_view(es: Seq<(String, Option<String>)>) -> SectionEntriesV {
    es.map_values(|e: (String, Option<String>)| entry_view(e))
}

/// The view of one section.
pub open spec fn section_view(s: IniSection) -> (Seq<char>, SectionEntriesV) {
    (s.name@, entries_view(s.entries@))
}

/// The view of a decoded section list.
pub open spec fn sections_view(ss: Seq<IniSection>) -> Seq<(Seq<char>, SectionEntriesV)> {
    ss.map_values(|s: IniSection| section_view(s))
}

/// What the outside INI parser makes of `text`: `None` when the text is
/// malformed, otherwise the sections in declaration order. The result depends
/// on the text alone.
pub uninterp spec fn ini_sections_of(text: Seq<char>) -> Option<Seq<(Seq<char>, SectionEntriesV)>>;

/// Relies on configparser's `Ini::read`, on an `Ini` built with `Ini::new_cs`
/// so that section and key names keep their case. With the parser's indexed
/// map, iteration returns sections and keys in declaration order. `Err`
/// carries the parser's own message.
#[verifier::external_body]
pub(crate) fn parse_ini(text: &str) -> (r: Result<Vec<IniSection>, String>)
    ensures
        r matches Ok(secs) ==> ini_sections_of(text@) == Some(sections_view(secs@)),
        r is Err <==> ini_sections_of(text@) is None,
{
    let mut ini = configparser::ini::Ini::new_cs();
    match ini.read(text.to_string()) {
        Ok(map) => Ok(map
            .into_iter()
            .map(|(name, opts)| IniSection { name, entries: opts.into_iter().collect() })
            .collect()),
        Err(e) => Err(e),
    }
}

} // verus!
