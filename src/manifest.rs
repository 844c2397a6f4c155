//! The project manifest as a table of sections, and the overlay that turns it
//! into the manifest of a native extension library.
use vstd::prelude::*;
use crate::errors::BardockError;
use crate::value::{
    find_key, has_key, item_view, key_pos, keys_unique, lemma_list_item_view, lemma_set_key, lemma_set_key_present,
    lemma_table_item_view, lookup, option_view, set_key, table_set, table_view, Item, ItemV,
    TableV,
};

verus! {

broadcast use vstd::std_specs::vec::group_vec_axioms, vstd::seq::group_seq_axioms;

/// A project manifest: its top-level sections (`package`, `lib`,
/// `dependencies`, ...) with their keys, in document order.
pub struct CargoToml {
    pub sections: Vec<(String, Item)>,
}

impl View for CargoToml {
    type V = TableV;

    open spec fn view(&self) -> TableV {
        table_view(self.sections@)
    }
}

/// Section keys are unique, and so are the keys of each section that is a table.
pub open spec fn sections_wf(doc: TableV) -> bool {
    &&& keys_unique(doc)
    &&& forall|i: int|
        0 <= i < doc.len() ==> (#[trigger] doc[i]).1 is Table ==> keys_unique(doc[i].1->Table_0)
}

impl CargoToml {
    pub open spec fn wf(&self) -> bool {
        sections_wf(self@)
    }
}

pub open spec fn lib_key() -> Seq<char> {
    "lib"@
}

pub open spec fn dependencies_key() -> Seq<char> {
    "dependencies"@
}

/// The table that section `k` holds: empty where the section is absent, none
/// where it is present but not a table.
pub open spec fn section_table(doc: TableV, k: Seq<char>) -> Option<TableV> {
    match lookup(doc, k) {
        None => Some(Seq::empty()),
        Some(ItemV::Table(t)) => Some(t),
        Some(_) => None,
    }
}

/// The `pyo3` dependency: the binding crate with its extension-module feature.
pub open spec fn pyo3_table() -> TableV {
    seq![
        ("features"@, ItemV::List(seq![ItemV::Text("extension-module"@)])),
        ("version"@, ItemV::Text("0.11.1"@)),
    ]
}

/// The `lib` section after the overlay: name, entry point and crate type set.
pub open spec fn lib_overlay(t: TableV, name: Seq<char>) -> TableV {
    set_key(
        set_key(set_key(t, "name"@, ItemV::Text(name)), "path"@, ItemV::Text("src/lib.rs"@)),
        "crate-type"@,
        ItemV::List(seq![ItemV::Text("cdylib"@)]),
    )
}

/// The `dependencies` section after the overlay, with `pyo3` mapped to `pyo3`.
pub open spec fn dependencies_overlay(t: TableV, pyo3: TableV) -> TableV {
    set_key(set_key(t, "pyo3"@, ItemV::Table(pyo3)), "log"@, ItemV::Text("0.4.8"@))
}

/// The manifest after the overlay, or none where `lib` or `dependencies` is
/// present and not a table.
pub open spec fn updated_manifest(doc: TableV, name: Seq<char>) -> Option<TableV> {
    match (section_table(doc, lib_key()), section_table(doc, dependencies_key())) {
        (Some(l), Some(d)) => Some(
            set_key(
                set_key(doc, lib_key(), ItemV::Table(lib_overlay(l, name))),
                dependencies_key(),
                ItemV::Table(dependencies_overlay(d, pyo3_table())),
            ),
        ),
        _ => None,
    }
}

/// The fields of the `package` section that a project is described by.
#[derive(Debug)]
pub struct Package {
    pub name: Option<String>,
    pub version: Option<String>,
    pub authors: Option<Vec<String>>,
}

/// The table under key `k`, or an empty one where there is no table there.
pub open spec fn table_at(t: TableV, k: Seq<char>) -> TableV {
    match lookup(t, k) {
        Some(ItemV::Table(s)) => s,
        _ => Seq::empty(),
    }
}

/// The string under key `k`, where there is one.
pub open spec fn text_at(t: TableV, k: Seq<char>) -> Option<Seq<char>> {
    match lookup(t, k) {
        Some(ItemV::Text(s)) => Some(s),
        _ => None,
    }
}

/// The strings of the array under key `k`, where it is an array of strings.
pub open spec fn texts_at(t: TableV, k: Seq<char>) -> Option<Seq<Seq<char>>> {
    match lookup(t, k) {
        Some(ItemV::List(l)) => if forall|i: int| 0 <= i < l.len() ==> (#[trigger] l[i]) is Text {
            Some(l.map_values(|x: ItemV| x->Text_0))
        } else {
            None
        },
        _ => None,
    }
}

pub open spec fn strings_view(v: Seq<String>) -> Seq<Seq<char>> {
    v.map_values(|s: String| s@)
}

/// The entry of `t` under key `k`, by reference.
fn entry_of<'a>(t: &'a Vec<(String, Item)>, k: &str) -> (r: Option<&'a Item>)
    requires
        keys_unique(table_view(t@)),
    ensures
        match lookup(table_view(t@), k@) {
            Some(v) => r is Some && item_view(*r->Some_0) == v,
            None => r is None,
        },
{
    let key = k.to_owned();
    match find_key(t, &key) {
        Some(i) => {
            proof {
                lemma_key_pos(table_view(t@), k@, i as int);
            }
            Some(&t[i].1)
        },
        None => None,
    }
}

/// The string under key `k`, copied out.
fn text_of_entry(t: &Vec<(String, Item)>, k: &str) -> (r: Option<String>)
    requires
        keys_unique(table_view(t@)),
    ensures
        option_view(r) == text_at(table_view(t@), k@),
{
    match entry_of(t, k) {
        Some(Item::Text(s)) => Some(s.clone()),
        _ => None,
    }
}

/// The strings of an array of strings; none where an item is not a string.
fn texts_of_list(v: &Vec<Item>) -> (r: Option<Vec<String>>)
    ensures
        ({
            let l = Seq::new(v@.len(), |j: int| item_view(v@[j]));
            &&& r is Some <==> forall|i: int| 0 <= i < l.len() ==> (#[trigger] l[i]) is Text
            &&& r is Some ==> strings_view(r->Some_0@) == l.map_values(|x: ItemV| x->Text_0)
        }),
{
    let ghost l = Seq::new(v@.len(), |j: int| item_view(v@[j]));
    let mut out: Vec<String> = Vec::new();
    let mut i: usize = 0;
    while i < v.len()
        invariant
            i <= v@.len(),
            out@.len() == i,
            l == Seq::new(v@.len(), |j: int| item_view(v@[j])),
            forall|j: int| 0 <= j < i ==> (#[trigger] l[j]) is Text,
            forall|j: int| 0 <= j < i ==> (#[trigger] out@[j])@ == l[j]->Text_0,
        decreases v@.len() - i,
    {
        match &v[i] {
            Item::Text(s) => {
                out.push(s.clone());
            },
            _ => {
                assert(!(l[i as int] is Text));
                return None;
            },
        }
        i = i + 1;
    }
    assert(strings_view(out@) =~= l.map_values(|x: ItemV| x->Text_0));
    Some(out)
}

impl CargoToml {
    /// The `name`, `version` and `authors` of the `package` section, each
    /// where it is present with the right kind of value.
    pub fn package(&self) -> (r: Package)
        requires
            self.wf(),
        ensures
            option_view(r.name) == text_at(table_at(self@, "package"@), "name"@),
            option_view(r.version) == text_at(table_at(self@, "package"@), "version"@),
            match texts_at(table_at(self@, "package"@), "authors"@) {
                Some(a) => r.authors is Some && strings_view(r.authors->Some_0@) == a,
                None => r.authors is None,
            },
    {
        let empty: Vec<(String, Item)> = Vec::new();
        let table = match entry_of(&self.sections, "package") {
            Some(Item::Table(t)) => t,
            _ => &empty,
        };
        proof {
            lemma_table_item_view(*table);
            assert(table_view(empty@) =~= Seq::empty());
            if has_key(self@, "package"@) {
                let p = key_pos(self@, "package"@);
                assert(self@[p].0 == "package"@);
            }
        }
        let authors = match entry_of(table, "authors") {
            Some(Item::List(v)) => {
                proof {
                    lemma_list_item_view(*v);
                }
                texts_of_list(v)
            },
            _ => None,
        };
        Package { name: text_of_entry(table, "name"), version: text_of_entry(table, "version"), authors }
    }
}

/// Setting a section to a table with unique keys keeps the manifest well formed.
pub proof fn lemma_set_section(doc: TableV, k: Seq<char>, t: TableV)
    requires
        sections_wf(doc),
        keys_unique(t),
    ensures
        sections_wf(set_key(doc, k, ItemV::Table(t))),
{
    lemma_set_key(doc, k, ItemV::Table(t));
    let r = set_key(doc, k, ItemV::Table(t));
    assert forall|i: int| 0 <= i < r.len() && (#[trigger] r[i]).1 is Table implies keys_unique(
        r[i].1->Table_0,
    ) by {
        if i < doc.len() {
            assert(r[i] == doc[i] || r[i] == (k, ItemV::Table(t)));
        }
    }
}

/// The entry of `doc` at `i` is the one with key `k`.
proof fn lemma_key_pos(doc: TableV, k: Seq<char>, i: int)
    requires
        keys_unique(doc),
        0 <= i < doc.len(),
        doc[i].0 == k,
    ensures
        has_key(doc, k),
        key_pos(doc, k) == i,
        lookup(doc, k) == Some(doc[i].1),
{
    assert(doc[i].0 == k);
    let p = key_pos(doc, k);
    assert(doc[p].0 == k);
}

/// Where section `k` of `doc` is a table: takes that table out and leaves an
/// empty table in its place. Where `k` is absent: an empty table.
fn take_table(doc: &mut Vec<(String, Item)>, k: &String) -> (r: Vec<(String, Item)>)
    requires
        sections_wf(table_view(old(doc)@)),
        section_table(table_view(old(doc)@), k@) is Some,
    ensures
        Some(table_view(r@)) == section_table(table_view(old(doc)@), k@),
        keys_unique(table_view(r@)),
        keys_unique(table_view(final(doc)@)),
        forall|v: ItemV|
            #[trigger] set_key(table_view(final(doc)@), k@, v) == set_key(
                table_view(old(doc)@),
                k@,
                v,
            ),
{
    let ghost d0 = table_view(doc@);
    match find_key(doc, k) {
        None => {
            assert(lookup(d0, k@) is None);
            Vec::new()
        },
        Some(i) => {
            proof {
                lemma_key_pos(d0, k@, i as int);
            }
            let (key, item) = doc.remove(i);
            match item {
                Item::Table(t) => {
                    let ghost empty_entry = (key@, ItemV::Table(Seq::empty()));
                    let empty: Vec<(String, Item)> = Vec::new();
                    proof {
                        lemma_table_item_view(empty);
                        assert(table_view(empty@) =~= Seq::empty());
                    }
                    doc.insert(i, (key, Item::Table(empty)));
                    proof {
                        lemma_table_item_view(t);
                        assert(d0[i as int].1 == item_view(Item::Table(t)));
                        assert(table_view(doc@) =~= d0.update(i as int, empty_entry));
                        let d1 = table_view(doc@);
                        assert forall|a: int, b: int|
                            0 <= a < d1.len() && 0 <= b < d1.len() && #[trigger] d1[a].0
                                == #[trigger] d1[b].0 implies a == b by {
                            assert(d1[a].0 == d0[a].0);
                            assert(d1[b].0 == d0[b].0);
                        }
                        lemma_key_pos(d1, k@, i as int);
                        assert forall|v: ItemV|
                            #[trigger] set_key(d1, k@, v) == set_key(d0, k@, v) by {
                            assert(set_key(d1, k@, v) =~= set_key(d0, k@, v));
                        }
                    }
                    t
                },
                _ => {
                    proof {
                        assert(false) by {
                            assert(d0[i as int].1 == item_view(item));
                        }
                    }
                    Vec::new()
                },
            }
        },
    }
}

/// Whether section `k` is absent or a table.
fn section_is_table(doc: &Vec<(String, Item)>, k: &String) -> (r: bool)
    requires
        keys_unique(table_view(doc@)),
    ensures
        r == section_table(table_view(doc@), k@) is Some,
{
    match find_key(doc, k) {
        None => true,
        Some(i) => {
            proof {
                lemma_key_pos(table_view(doc@), k@, i as int);
            }
            match &doc[i].1 {
                Item::Table(_) => true,
                _ => false,
            }
        },
    }
}

/// The `pyo3` dependency table.
pub fn pyo3_dependency_map() -> (r: Vec<(String, Item)>)
    ensures
        table_view(r@) == pyo3_table(),
        keys_unique(table_view(r@)),
{
    let features = vec![Item::Text("extension-module".to_owned())];
    let mut r: Vec<(String, Item)> = Vec::new();
    r.push(("features".to_owned(), Item::List(features)));
    r.push(("version".to_owned(), Item::Text("0.11.1".to_owned())));
    proof {
        lemma_list_item_view(features);
        assert(item_view(Item::List(features)) == ItemV::List(seq![ItemV::Text("extension-module"@)])) by {
            assert(Seq::new(features@.len(), |j: int| item_view(features@[j])) =~= seq![ItemV::Text("extension-module"@)]);
        }
        assert(table_view(r@) =~= pyo3_table());
        reveal_strlit("features");
        reveal_strlit("version");
        assert(pyo3_table()[0].0 != pyo3_table()[1].0) by {
            assert(pyo3_table()[0].0[0] != pyo3_table()[1].0[0]);
        }
    }
    r
}

/// Sets the `name`, `path` and `crate-type` of a `lib` section so that it
/// builds a shared library named `name`; its other keys stay.
pub fn update_manifest_lib(lib: &mut Vec<(String, Item)>, name: &str)
    requires
        keys_unique(table_view(old(lib)@)),
    ensures
        table_view(final(lib)@) == lib_overlay(table_view(old(lib)@), name@),
        keys_unique(table_view(final(lib)@)),
{
    let crate_types = vec![Item::Text("cdylib".to_owned())];
    proof {
        lemma_list_item_view(crate_types);
        assert(Seq::new(crate_types@.len(), |j: int| item_view(crate_types@[j])) =~= seq![ItemV::Text("cdylib"@)]);
    }
    table_set(lib, "name".to_owned(), Item::Text(name.to_owned()));
    table_set(lib, "path".to_owned(), Item::Text("src/lib.rs".to_owned()));
    table_set(lib, "crate-type".to_owned(), Item::List(crate_types));
}

/// Adds or overwrites the `pyo3` dependency with `pyo3_map`, and the `log`
/// dependency; the other dependencies stay.
pub fn update_manifest_dependencies(
    dependencies_map: &mut Vec<(String, Item)>,
    pyo3_map: Vec<(String, Item)>,
)
    requires
        keys_unique(table_view(old(dependencies_map)@)),
    ensures
        table_view(final(dependencies_map)@) == dependencies_overlay(
            table_view(old(dependencies_map)@),
            table_view(pyo3_map@),
        ),
        keys_unique(table_view(final(dependencies_map)@)),
{
    proof {
        lemma_table_item_view(pyo3_map);
    }
    table_set(dependencies_map, "pyo3".to_owned(), Item::Table(pyo3_map));
    table_set(dependencies_map, "log".to_owned(), Item::Text("0.4.8".to_owned()));
}

/// Applies the overlay to the manifest: `lib` builds a shared library named
/// `name`, and `dependencies` holds `pyo3` and `log`. Fails, leaving the
/// manifest as it was, where `lib` or `dependencies` is present and not a table.
pub fn get_updated_manifest(manifest: &mut CargoToml, name: &str) -> (r: Result<(), BardockError>)
    requires
        old(manifest).wf(),
    ensures
        match updated_manifest(old(manifest)@, name@) {
            Some(d) => r is Ok && final(manifest)@ == d,
            None => r == Err::<(), BardockError>(BardockError::ManifestShape) && final(manifest)@
                == old(manifest)@,
        },
        final(manifest).wf(),
{
    let ghost d0 = manifest@;
    let lib_name = "lib".to_owned();
    let deps_name = "dependencies".to_owned();
    if !section_is_table(&manifest.sections, &lib_name) || !section_is_table(
        &manifest.sections,
        &deps_name,
    ) {
        return Err(BardockError::ManifestShape);
    }
    let mut libs = take_table(&mut manifest.sections, &lib_name);
    update_manifest_lib(&mut libs, name);
    let ghost lt = table_view(libs@);
    proof {
        lemma_table_item_view(libs);
        lemma_set_section(d0, lib_key(), lt);
    }
    table_set(&mut manifest.sections, lib_name, Item::Table(libs));
    let ghost d1 = manifest@;
    proof {
        lemma_set_key(d0, lib_key(), ItemV::Table(lt));
        reveal_strlit("lib");
        reveal_strlit("dependencies");
        assert(lib_key() != dependencies_key()) by {
            assert(lib_key().len() != dependencies_key().len());
        }
        assert(lookup(d1, dependencies_key()) == lookup(d0, dependencies_key()));
    }
    let mut dependencies = take_table(&mut manifest.sections, &deps_name);
    update_manifest_dependencies(&mut dependencies, pyo3_dependency_map());
    let ghost dt = table_view(dependencies@);
    proof {
        lemma_table_item_view(dependencies);
        lemma_set_section(d1, dependencies_key(), dt);
    }
    table_set(&mut manifest.sections, deps_name, Item::Table(dependencies));
    Ok(())
}

proof fn lemma_overlay_keys_distinct()
    ensures
        "name"@ != "path"@,
        "name"@ != "crate-type"@,
        "path"@ != "crate-type"@,
        "pyo3"@ != "log"@,
        lib_key() != dependencies_key(),
        "features"@ != "version"@,
{
    reveal_strlit("name");
    reveal_strlit("path");
    reveal_strlit("crate-type");
    reveal_strlit("pyo3");
    reveal_strlit("log");
    reveal_strlit("lib");
    reveal_strlit("dependencies");
    reveal_strlit("features");
    reveal_strlit("version");
    assert("name"@[0] != "path"@[0]);
    assert("name"@.len() != "crate-type"@.len());
    assert("path"@.len() != "crate-type"@.len());
    assert("pyo3"@.len() != "log"@.len());
    assert(lib_key().len() != dependencies_key().len());
    assert("features"@.len() != "version"@.len());
}

/// The `pyo3` dependency table has unique keys.
pub proof fn lemma_pyo3_table_wf()
    ensures
        keys_unique(pyo3_table()),
{
    lemma_overlay_keys_distinct();
    let t = pyo3_table();
    assert(t[0].0 != t[1].0);
}

/// The `lib` section after the overlay: the three overlay keys hold the overlay
/// values, every other key holds what it held before, and keys stay unique.
pub proof fn lemma_lib_overlay(t: TableV, name: Seq<char>)
    requires
        keys_unique(t),
    ensures
        keys_unique(lib_overlay(t, name)),
        lookup(lib_overlay(t, name), "name"@) == Some(ItemV::Text(name)),
        lookup(lib_overlay(t, name), "path"@) == Some(ItemV::Text("src/lib.rs"@)),
        lookup(lib_overlay(t, name), "crate-type"@) == Some(
            ItemV::List(seq![ItemV::Text("cdylib"@)]),
        ),
        forall|k: Seq<char>|
            k != "name"@ && k != "path"@ && k != "crate-type"@ ==> #[trigger] lookup(
                lib_overlay(t, name),
                k,
            ) == lookup(t, k),
{
    lemma_overlay_keys_distinct();
    let t1 = set_key(t, "name"@, ItemV::Text(name));
    let t2 = set_key(t1, "path"@, ItemV::Text("src/lib.rs"@));
    lemma_set_key(t, "name"@, ItemV::Text(name));
    lemma_set_key(t1, "path"@, ItemV::Text("src/lib.rs"@));
    lemma_set_key(t2, "crate-type"@, ItemV::List(seq![ItemV::Text("cdylib"@)]));
}

/// The `dependencies` section after the overlay: `pyo3` and `log` hold the
/// overlay values, every other dependency is kept, and keys stay unique.
pub proof fn lemma_dependencies_overlay(t: TableV, pyo3: TableV)
    requires
        keys_unique(t),
    ensures
        keys_unique(dependencies_overlay(t, pyo3)),
        lookup(dependencies_overlay(t, pyo3), "pyo3"@) == Some(ItemV::Table(pyo3)),
        lookup(dependencies_overlay(t, pyo3), "log"@) == Some(ItemV::Text("0.4.8"@)),
        forall|k: Seq<char>|
            k != "pyo3"@ && k != "log"@ ==> #[trigger] lookup(dependencies_overlay(t, pyo3), k)
                == lookup(t, k),
{
    lemma_overlay_keys_distinct();
    let t1 = set_key(t, "pyo3"@, ItemV::Table(pyo3));
    lemma_set_key(t, "pyo3"@, ItemV::Table(pyo3));
    lemma_set_key(t1, "log"@, ItemV::Text("0.4.8"@));
}

/// Of every well-formed manifest on which the overlay succeeds: the result
/// is well formed; its `lib` section holds `name`, `path = "src/lib.rs"` and
/// `crate-type = ["cdylib"]`, and every other key of the former `lib` section
/// unchanged; every section other than `lib` and `dependencies` is unchanged.
pub proof fn lemma_lib_section_after_update(m: TableV, name: Seq<char>)
    requires
        sections_wf(m),
        updated_manifest(m, name) is Some,
    ensures
        ({
            let r = updated_manifest(m, name)->Some_0;
            let old_lib = section_table(m, lib_key())->Some_0;
            &&& sections_wf(r)
            &&& section_table(r, lib_key()) is Some
            &&& lookup(section_table(r, lib_key())->Some_0, "name"@) == Some(ItemV::Text(name))
            &&& lookup(section_table(r, lib_key())->Some_0, "path"@) == Some(
                ItemV::Text("src/lib.rs"@),
            )
            &&& lookup(section_table(r, lib_key())->Some_0, "crate-type"@) == Some(
                ItemV::List(seq![ItemV::Text("cdylib"@)]),
            )
            &&& forall|k: Seq<char>|
                k != "name"@ && k != "path"@ && k != "crate-type"@ ==> #[trigger] lookup(
                    section_table(r, lib_key())->Some_0,
                    k,
                ) == lookup(old_lib, k)
            &&& forall|k: Seq<char>|
                k != lib_key() && k != dependencies_key() ==> #[trigger] lookup(r, k) == lookup(
                    m,
                    k,
                )
        }),
{
    lemma_update_facts(m, name);
    lemma_lib_overlay(section_table(m, lib_key())->Some_0, name);
}

/// Of every well-formed manifest on which the overlay succeeds: the
/// `dependencies` section of the result maps `pyo3` to version `0.11.1` with
/// the `extension-module` feature and `log` to `"0.4.8"`, and keeps every
/// other dependency of the former section.
pub proof fn lemma_dependencies_after_update(m: TableV, name: Seq<char>)
    requires
        sections_wf(m),
        updated_manifest(m, name) is Some,
    ensures
        ({
            let r = updated_manifest(m, name)->Some_0;
            let old_deps = section_table(m, dependencies_key())->Some_0;
            &&& section_table(r, dependencies_key()) is Some
            &&& lookup(section_table(r, dependencies_key())->Some_0, "pyo3"@) == Some(
                ItemV::Table(pyo3_table()),
            )
            &&& lookup(section_table(r, dependencies_key())->Some_0, "log"@) == Some(
                ItemV::Text("0.4.8"@),
            )
            &&& forall|k: Seq<char>|
                k != "pyo3"@ && k != "log"@ ==> #[trigger] lookup(
                    section_table(r, dependencies_key())->Some_0,
                    k,
                ) == lookup(old_deps, k)
        }),
{
    lemma_update_facts(m, name);
    lemma_dependencies_overlay(section_table(m, dependencies_key())->Some_0, pyo3_table());
}

/// Applying the overlay to its own result changes nothing.
pub proof fn lemma_update_idempotent(m: TableV, name: Seq<char>)
    requires
        sections_wf(m),
        updated_manifest(m, name) is Some,
    ensures
        updated_manifest(updated_manifest(m, name)->Some_0, name) == updated_manifest(m, name),
{
    lemma_update_facts(m, name);
    lemma_overlay_keys_distinct();
    lemma_pyo3_table_wf();
    let r = updated_manifest(m, name)->Some_0;
    let l = section_table(m, lib_key())->Some_0;
    let d = section_table(m, dependencies_key())->Some_0;
    let l1 = lib_overlay(l, name);
    let d1 = dependencies_overlay(d, pyo3_table());
    lemma_lib_overlay(l, name);
    lemma_dependencies_overlay(d, pyo3_table());
    // the overlay on an overlaid `lib` section sets each key to what it holds
    lemma_set_key_present(l1, "name"@, ItemV::Text(name));
    lemma_set_key_present(l1, "path"@, ItemV::Text("src/lib.rs"@));
    lemma_set_key_present(l1, "crate-type"@, ItemV::List(seq![ItemV::Text("cdylib"@)]));
    assert(lib_overlay(l1, name) == l1);
    lemma_set_key_present(d1, "pyo3"@, ItemV::Table(pyo3_table()));
    lemma_set_key_present(d1, "log"@, ItemV::Text("0.4.8"@));
    assert(dependencies_overlay(d1, pyo3_table()) == d1);
    lemma_set_key_present(r, lib_key(), ItemV::Table(l1));
    lemma_set_key_present(r, dependencies_key(), ItemV::Table(d1));
}

/// The sections of the overlay's result, as the laws above read them.
proof fn lemma_update_facts(m: TableV, name: Seq<char>)
    requires
        sections_wf(m),
        updated_manifest(m, name) is Some,
    ensures
        ({
            let r = updated_manifest(m, name)->Some_0;
            let l = section_table(m, lib_key())->Some_0;
            let d = section_table(m, dependencies_key())->Some_0;
            &&& keys_unique(l)
            &&& keys_unique(d)
            &&& sections_wf(r)
            &&& lookup(r, lib_key()) == Some(ItemV::Table(lib_overlay(l, name)))
            &&& lookup(r, dependencies_key()) == Some(
                ItemV::Table(dependencies_overlay(d, pyo3_table())),
            )
            &&& section_table(r, lib_key()) == Some(lib_overlay(l, name))
            &&& section_table(r, dependencies_key()) == Some(
                dependencies_overlay(d, pyo3_table()),
            )
            &&& forall|k: Seq<char>|
                k != lib_key() && k != dependencies_key() ==> #[trigger] lookup(r, k) == lookup(
                    m,
                    k,
                )
        }),
{
    lemma_overlay_keys_distinct();
    let l = section_table(m, lib_key())->Some_0;
    let d = section_table(m, dependencies_key())->Some_0;
    if has_key(m, lib_key()) {
        let p = key_pos(m, lib_key());
        assert(m[p].0 == lib_key());
    }
    if has_key(m, dependencies_key()) {
        let p = key_pos(m, dependencies_key());
        assert(m[p].0 == dependencies_key());
    }
    lemma_lib_overlay(l, name);
    lemma_dependencies_overlay(d, pyo3_table());
    let m1 = set_key(m, lib_key(), ItemV::Table(lib_overlay(l, name)));
    lemma_set_key(m, lib_key(), ItemV::Table(lib_overlay(l, name)));
    lemma_set_section(m, lib_key(), lib_overlay(l, name));
    lemma_set_key(m1, dependencies_key(), ItemV::Table(dependencies_overlay(d, pyo3_table())));
    lemma_set_section(m1, dependencies_key(), dependencies_overlay(d, pyo3_table()));
}

} // verus!
