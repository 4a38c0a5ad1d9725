//! Reading the API credential and base URL out of configuration text.
//!
//! The configuration is INI-style text: bracketed section headers over
//! `key = value` lines. The credential pair lives in the `settings`
//! section under the keys `api_key` and `api_url`. A leading byte-order
//! mark is tolerated and stripped before parsing. The parsing itself is
//! done by `configparser`, behind trusted declarations; everything around
//! it is verified.

use vstd::prelude::*;
use vstd::string::StrSliceExecFns;
use vstd::string::StringExecFns;
use configparser::ini::Ini;

verus! {

/// A parsed document: sections by name, each a map from key to value,
/// with `None` for a key written without a value.
pub type IniDoc = Map<Seq<char>, Map<Seq<char>, Option<Seq<char>>>>;

/// The `configparser` document type, declared so that values of it can
/// pass through verified code; what it holds is reached only through the
/// trusted wrappers below.
#[verifier::external_type_specification]
#[verifier::external_body]
pub struct ExIni(Ini);

/// What the document holds: its sections, each key mapped to its value.
pub uninterp spec fn ini_doc(ini: Ini) -> IniDoc;

/// Whether the document was made with the default options: sections and
/// keys matched case-insensitively, no fallback to a default section.
pub uninterp spec fn ini_defaults(ini: Ini) -> bool;

/// What parsing a text with the default options yields: the document, or
/// `None` where the parser rejects the text.
pub uninterp spec fn ini_parse(s: Seq<char>) -> Option<IniDoc>;

/// Relies on configparser::ini::Ini::new: a fresh document with the
/// default options.
#[verifier::external_body]
fn ini_new() -> (r: Ini)
    ensures
        ini_defaults(r),
{
    Ini::new()
}

/// Relies on configparser::ini::Ini::read: parses the text and replaces
/// the document with the result. With the default options the parse
/// depends on the text alone; a rejected text leaves the document as it
/// was.
#[verifier::external_body]
fn ini_read(ini: &mut Ini, input: String) -> (r: bool)
    requires
        ini_defaults(*old(ini)),
    ensures
        ini_defaults(*final(ini)),
        r == (ini_parse(input@) is Some),
        r ==> Some(ini_doc(*final(ini))) == ini_parse(input@),
{
    ini.read(input).is_ok()
}

/// Relies on configparser::ini::Ini::get: looks the key up in the section
/// and returns its value. With the default options a section or key that
/// holds no upper-case ASCII is matched as given, and there is no
/// fallback to a default section.
#[verifier::external_body]
fn ini_get(ini: &Ini, section: &str, key: &str) -> (r: Option<String>)
    requires
        ini_defaults(*ini),
        spec_caseless(section@),
        spec_caseless(key@),
    ensures
        match r {
            Some(v) => doc_lookup(ini_doc(*ini), section@, key@) == Some(v@),
            None => doc_lookup(ini_doc(*ini), section@, key@) is None,
        },
{
    ini.get(section, key)
}

/// A character that case-insensitive matching leaves alone: ASCII and not
/// an upper-case letter.
pub open spec fn char_caseless(c: char) -> bool {
    (c as u32) < 128 && !('A' as u32 <= c as u32 && c as u32 <= 'Z' as u32)
}

/// A string that case-insensitive matching leaves alone.
pub open spec fn spec_caseless(s: Seq<char>) -> bool {
    forall|i: int| 0 <= i < s.len() ==> char_caseless(#[trigger] s[i])
}

/// The value of `key` in `section`: `Some` only where the section exists,
/// holds the key, and the key was written with a value.
pub open spec fn doc_lookup(doc: IniDoc, section: Seq<char>, key: Seq<char>) -> Option<Seq<char>> {
    if doc.contains_key(section) && doc[section].contains_key(key) {
        doc[section][key]
    } else {
        None
    }
}

/// The section that holds the credential pair.
pub open spec fn spec_section() -> Seq<char> {
    "settings"@
}

/// The key of the API credential.
pub open spec fn spec_key_name() -> Seq<char> {
    "api_key"@
}

/// The key of the API base URL.
pub open spec fn spec_url_name() -> Seq<char> {
    "api_url"@
}

/// The text with one leading byte-order mark removed, if present.
pub open spec fn spec_strip_bom(s: Seq<char>) -> Seq<char> {
    if s.len() > 0 && s[0] == '\u{feff}' {
        s.skip(1)
    } else {
        s
    }
}

/// The credential pair a document yields: both values from the `settings`
/// section, or nothing where either is absent.
pub open spec fn config_of_doc(doc: IniDoc) -> Option<(Seq<char>, Seq<char>)> {
    match (doc_lookup(doc, spec_section(), spec_key_name()), doc_lookup(
        doc,
        spec_section(),
        spec_url_name(),
    )) {
        (Some(k), Some(u)) => Some((k, u)),
        _ => None,
    }
}

/// What reading a configuration text yields: the credential pair of the
/// parsed, byte-order-mark-stripped text, or nothing where the text does
/// not parse or either key is absent.
pub open spec fn spec_config(s: Seq<char>) -> Option<(Seq<char>, Seq<char>)> {
    match ini_parse(spec_strip_bom(s)) {
        Some(doc) => config_of_doc(doc),
        None => None,
    }
}

/// The credential pair read from the configuration: the API key and the
/// base URL of the service.
#[derive(Debug, PartialEq, Eq)]
pub struct Credentials {
    pub api_key: String,
    pub api_url: String,
}

/// The fixed section and key names are untouched by case-insensitive
/// matching.
proof fn lemma_fixed_names_caseless()
    ensures
        spec_caseless(spec_section()),
        spec_caseless(spec_key_name()),
        spec_caseless(spec_url_name()),
{
    reveal_strlit("settings");
    reveal_strlit("api_key");
    reveal_strlit("api_url");
}

/// Strips one leading byte-order mark, if present.
pub fn strip_bom(contents: &str) -> (r: &str)
    ensures
        r@ == spec_strip_bom(contents@),
{
    let n: usize = contents.unicode_len();
    if n > 0 && contents.get_char(0) == '\u{feff}' {
        let rest = contents.substring_char(1, n);
        proof {
            assert(rest@ =~= contents@.skip(1));
        }
        rest
    } else {
        contents
    }
}

/// Reads the credential pair out of configuration text: strips a leading
/// byte-order mark, parses the rest as an INI document, and looks both
/// keys up in the `settings` section. Yields the pair exactly where the
/// text parses and both keys are present, and nothing otherwise.
pub fn read_config(contents: &str) -> (r: Option<Credentials>)
    ensures
        match r {
            Some(c) => spec_config(contents@) == Some((c.api_key@, c.api_url@)),
            None => spec_config(contents@) is None,
        },
{
    let stripped = strip_bom(contents);
    let mut ini = ini_new();
    let ok = ini_read(&mut ini, String::from_str(stripped));
    if !ok {
        return None;
    }
    proof {
        lemma_fixed_names_caseless();
    }
    let key = ini_get(&ini, "settings", "api_key");
    let url = ini_get(&ini, "settings", "api_url");
    match (key, url) {
        (Some(api_key), Some(api_url)) => Some(Credentials { api_key, api_url }),
        _ => None,
    }
}

/// A document with both keys present in the `settings` section yields
/// exactly those two values, whatever else it holds.
pub proof fn lemma_config_found(doc: IniDoc, k: Seq<char>, u: Seq<char>)
    requires
        doc_lookup(doc, spec_section(), spec_key_name()) == Some(k),
        doc_lookup(doc, spec_section(), spec_url_name()) == Some(u),
    ensures
        config_of_doc(doc) == Some((k, u)),
{
}

/// A missing section or key never yields a partial pair: where either
/// lookup fails, the document yields nothing at all.
pub proof fn lemma_no_partial_credentials(doc: IniDoc)
    requires
        doc_lookup(doc, spec_section(), spec_key_name()) is None || doc_lookup(
            doc,
            spec_section(),
            spec_url_name(),
        ) is None,
    ensures
        config_of_doc(doc) is None,
{
}

/// A text beginning with a byte-order mark reads the same as the text
/// without it.
pub proof fn lemma_bom_ignored(s: Seq<char>)
    requires
        s.len() == 0 || s[0] != '\u{feff}',
    ensures
        spec_config(seq!['\u{feff}'] + s) == spec_config(s),
{
    assert((seq!['\u{feff}'] + s).skip(1) =~= s);
}

} // verus!
