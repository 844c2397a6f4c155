//! Reading a manifest from TOML text and writing it back, through the toml crate.
use vstd::prelude::*;
use vstd::string::StringSliceAdditionalSpecFns;
use crate::errors::BardockError;
use crate::manifest::{get_updated_manifest, sections_wf, updated_manifest, CargoToml};
use crate::value::{
    depth_within, table_depth_within, table_depth_within_spec, table_view, Item, Scalar, TableV,
};

verus! {

/// The document that the toml crate reads from a text: its top-level table,
/// or none where the text is not a valid TOML document.
pub uninterp spec fn parsed_document(text: Seq<char>) -> Option<TableV>;

/// The text that the toml crate writes for a top-level table, or none where
/// it cannot write it.
pub uninterp spec fn rendered_document(doc: TableV) -> Option<Seq<char>>;

/// The most bytes `[`, `{` and `.` that a text handed to the toml reader may
/// hold. Each level of nesting in a document takes one of them, and the
/// reader recurses once per level, so this bounds its stack use.
pub const MAX_NESTING_MARKS: usize = 500;

/// The deepest nesting of arrays and tables that the toml writer is handed;
/// it recurses once per level.
pub const MAX_DEPTH: usize = 512;

pub open spec fn is_nesting_mark(b: u8) -> bool {
    b == 91u8 || b == 123u8 || b == 46u8
}

/// How many bytes of `b` are `[`, `{` or `.`.
pub open spec fn nesting_marks(b: Seq<u8>) -> nat
    decreases b.len(),
{
    if b.len() == 0 {
        0
    } else {
        nesting_marks(b.drop_last()) + if is_nesting_mark(b.last()) {
            1nat
        } else {
            0nat
        }
    }
}

/// How many bytes of the UTF-8 text are `[`, `{` or `.`.
pub fn count_nesting_marks(text: &str) -> (r: usize)
    ensures
        r == nesting_marks(text.spec_bytes()),
{
    let b = text.as_bytes();
    let mut i: usize = 0;
    let mut c: usize = 0;
    assert(b@.subrange(0, 0) =~= Seq::<u8>::empty());
    while i < b.len()
        invariant
            i <= b@.len(),
            b@ == text.spec_bytes(),
            c <= i,
            c == nesting_marks(b@.subrange(0, i as int)),
        decreases b@.len() - i,
    {
        assert(b@.subrange(0, i + 1).drop_last() =~= b@.subrange(0, i as int));
        if b[i] == 91u8 || b[i] == 123u8 || b[i] == 46u8 {
            c = c + 1;
        }
        i = i + 1;
    }
    assert(b@.subrange(0, i as int) =~= b@);
    c
}

/// Turns a value read by the toml crate into an [`Item`], variant for variant.
#[verifier::external_body]
fn item_of_toml(v: toml::Value) -> Item {
    match v {
        toml::Value::String(s) => Item::Text(s),
        toml::Value::Integer(n) => Item::Integer(n),
        toml::Value::Boolean(b) => Item::Boolean(b),
        toml::Value::Array(a) => Item::List(a.into_iter().map(item_of_toml).collect()),
        toml::Value::Table(t) => Item::Table(t.into_iter().map(|(k, v)| (k, item_of_toml(v))).collect()),
        other => Item::Other(Scalar { value: other }),
    }
}

/// Turns an [`Item`] into the toml crate's value, variant for variant; it
/// recurses once per level of nesting.
#[verifier::external_body]
fn toml_of_item(i: &Item) -> toml::Value
    requires
        depth_within(i@, MAX_DEPTH as nat),
{
    match i {
        Item::Text(s) => toml::Value::String(s.clone()),
        Item::Integer(n) => toml::Value::Integer(*n),
        Item::Boolean(b) => toml::Value::Boolean(*b),
        Item::List(a) => toml::Value::Array(a.iter().map(toml_of_item).collect()),
        Item::Table(t) => toml::Value::Table(t.iter().map(|(k, v)| (k.clone(), toml_of_item(v))).collect()),
        Item::Other(s) => s.value.clone(),
    }
}

/// Relies on `toml::from_str`, read into the crate's `toml::value::Table`: the
/// top-level table of a valid document, whose keys (and those of each table
/// in it) are unique, as keys of a `toml::map::Map` are; an error on any other
/// text. The reader recurses once per level of nesting, hence the bound.
#[verifier::external_body]
fn parse_toml(text: &str) -> (r: Result<Vec<(String, Item)>, String>)
    requires
        nesting_marks(text.spec_bytes()) <= MAX_NESTING_MARKS,
    ensures
        match r {
            Ok(t) => parsed_document(text@) == Some(table_view(t@)) && sections_wf(table_view(t@)),
            Err(_) => parsed_document(text@) is None,
        },
{
    match toml::from_str::<toml::value::Table>(text) {
        Ok(t) => Ok(t.into_iter().map(|(k, v)| (k, item_of_toml(v))).collect()),
        Err(e) => Err(e.to_string()),
    }
}

/// Relies on `toml::to_string` of a `toml::Value::Table`, which writes the
/// plain values of a table before its tables: the TOML text of the table, or
/// an error where the crate cannot write it. The writer recurses once per
/// level of nesting, hence the bound.
#[verifier::external_body]
fn render_toml(doc: &Vec<(String, Item)>) -> (r: Result<String, String>)
    requires
        table_depth_within_spec(table_view(doc@), MAX_DEPTH as nat),
    ensures
        match r {
            Ok(s) => rendered_document(table_view(doc@)) == Some(s@),
            Err(_) => rendered_document(table_view(doc@)) is None,
        },
{
    let table: toml::value::Table = doc.iter().map(|(k, v)| (k.clone(), toml_of_item(v))).collect();
    toml::to_string(&toml::Value::Table(table)).map_err(|e| e.to_string())
}

impl CargoToml {
    /// Reads a manifest from its text. A text with more than
    /// [`MAX_NESTING_MARKS`] bytes `[`, `{` and `.` is refused unread.
    pub fn parse(text: &str) -> (r: Result<CargoToml, BardockError>)
        ensures
            nesting_marks(text.spec_bytes()) > MAX_NESTING_MARKS ==> r is Err && r->Err_0 is ManifestParse,
            nesting_marks(text.spec_bytes()) <= MAX_NESTING_MARKS ==> match parsed_document(text@) {
                Some(d) => r is Ok && r->Ok_0@ == d && r->Ok_0.wf(),
                None => r is Err && r->Err_0 is ManifestParse,
            },
    {
        if count_nesting_marks(text) > MAX_NESTING_MARKS {
            return Err(BardockError::ManifestParse("the manifest nests too deeply".to_owned()));
        }
        match parse_toml(text) {
            Ok(sections) => Ok(CargoToml { sections }),
            Err(message) => Err(BardockError::ManifestParse(message)),
        }
    }

    /// Writes the manifest out as text. A manifest whose arrays and tables
    /// nest deeper than [`MAX_DEPTH`] is refused unwritten.
    pub fn to_text(&self) -> (r: Result<String, BardockError>)
        ensures
            !table_depth_within_spec(self@, MAX_DEPTH as nat) ==> r is Err && r->Err_0 is ManifestSerialize,
            table_depth_within_spec(self@, MAX_DEPTH as nat) ==> match rendered_document(self@) {
                Some(s) => r is Ok && r->Ok_0@ == s,
                None => r is Err && r->Err_0 is ManifestSerialize,
            },
    {
        if !table_depth_within(&self.sections, MAX_DEPTH) {
            return Err(BardockError::ManifestSerialize("the manifest nests too deeply".to_owned()));
        }
        match render_toml(&self.sections) {
            Ok(s) => Ok(s),
            Err(message) => Err(BardockError::ManifestSerialize(message)),
        }
    }
}

/// The manifest text after the overlay for package `name`: read, overlaid,
/// and written out again.
pub fn updated_manifest_text(text: &str, name: &str) -> (r: Result<String, BardockError>)
    ensures
        nesting_marks(text.spec_bytes()) > MAX_NESTING_MARKS ==> r is Err && r->Err_0 is ManifestParse,
        nesting_marks(text.spec_bytes()) <= MAX_NESTING_MARKS ==> match parsed_document(text@) {
            None => r is Err && r->Err_0 is ManifestParse,
            Some(d) => match updated_manifest(d, name@) {
                None => r == Err::<String, BardockError>(BardockError::ManifestShape),
                Some(u) => if !table_depth_within_spec(u, MAX_DEPTH as nat) {
                    r is Err && r->Err_0 is ManifestSerialize
                } else {
                    match rendered_document(u) {
                        Some(s) => r is Ok && r->Ok_0@ == s,
                        None => r is Err && r->Err_0 is ManifestSerialize,
                    }
                },
            },
        },
{
    let mut manifest = CargoToml::parse(text)?;
    get_updated_manifest(&mut manifest, name)?;
    manifest.to_text()
}

} // verus!
