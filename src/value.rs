//! The tree of values that a manifest document is made of, and its tables.
use vstd::prelude::*;

verus! {

broadcast use vstd::std_specs::vec::group_vec_axioms, vstd::seq::group_seq_axioms;

/// The toml crate's `toml::Value`, declared so that a [`Scalar`] can carry
/// one through unread.
#[verifier::external_type_specification]
#[verifier::external_body]
pub struct ExTomlValue(toml::Value);

/// A float or a date-time as the toml crate read it. Only the reader of this
/// crate makes one, so it never holds an array or a table.
pub struct Scalar {
    pub(crate) value: toml::Value,
}

/// A value of a manifest document.
///
/// Strings, integers, booleans, arrays and tables are held as plain values.
/// Floats and date-times are carried through untouched as `Other`.
pub enum Item {
    Text(String),
    Integer(i64),
    Boolean(bool),
    List(Vec<Item>),
    Table(Vec<(String, Item)>),
    Other(Scalar),
}

/// The mathematical value of an [`Item`].
pub enum ItemV {
    Text(Seq<char>),
    Integer(i64),
    Boolean(bool),
    List(Seq<ItemV>),
    Table(Seq<(Seq<char>, ItemV)>),
    Other(Scalar),
}

/// A table as a sequence of key and value, in the order of the entries.
pub type TableV = Seq<(Seq<char>, ItemV)>;

pub open spec fn item_view(i: Item) -> ItemV
    decreases i,
{
    match i {
        Item::Text(s) => ItemV::Text(s@),
        Item::Integer(n) => ItemV::Integer(n),
        Item::Boolean(b) => ItemV::Boolean(b),
        Item::List(v) => ItemV::List(
            Seq::new(
                v@.len(),
                |j: int|
                    if 0 <= j < v@.len() {
                        item_view(v@[j])
                    } else {
                        ItemV::Boolean(false)
                    },
            ),
        ),
        Item::Table(t) => ItemV::Table(
            Seq::new(
                t@.len(),
                |j: int|
                    if 0 <= j < t@.len() {
                        (t@[j].0@, item_view(t@[j].1))
                    } else {
                        (Seq::empty(), ItemV::Boolean(false))
                    },
            ),
        ),
        Item::Other(v) => ItemV::Other(v),
    }
}

impl View for Item {
    type V = ItemV;

    open spec fn view(&self) -> ItemV {
        item_view(*self)
    }
}

/// Arrays and tables nest at most `n` deep in `v`.
pub open spec fn depth_within(v: ItemV, n: nat) -> bool
    decreases 2 * n + 1, 0nat,
{
    match v {
        ItemV::List(l) => n > 0 && list_within(l, (n - 1) as nat, l.len()),
        ItemV::Table(t) => n > 0 && table_within(t, (n - 1) as nat, t.len()),
        _ => true,
    }
}

/// Arrays and tables nest at most `m` deep in each of the first `k` items of `l`.
pub open spec fn list_within(l: Seq<ItemV>, m: nat, k: nat) -> bool
    decreases 2 * m + 2, k,
{
    if k == 0 {
        true
    } else {
        list_within(l, m, (k - 1) as nat) && (k <= l.len() ==> depth_within(l[k - 1], m))
    }
}

/// Arrays and tables nest at most `m` deep in each of the first `k` values of `t`.
pub open spec fn table_within(t: TableV, m: nat, k: nat) -> bool
    decreases 2 * m + 2, k,
{
    if k == 0 {
        true
    } else {
        table_within(t, m, (k - 1) as nat) && (k <= t.len() ==> depth_within(t[k - 1].1, m))
    }
}

/// Arrays and tables nest at most `n` deep in every value of `t`.
pub open spec fn table_depth_within_spec(t: TableV, n: nat) -> bool {
    table_within(t, n, t.len())
}

/// Whether arrays and tables nest at most `n` deep in `i`.
pub fn item_depth_within(i: &Item, n: usize) -> (r: bool)
    ensures
        r == depth_within(i@, n as nat),
    decreases n, 0nat,
{
    match i {
        Item::List(v) => {
            if n == 0 {
                return false;
            }
            proof {
                lemma_list_item_view(*v);
            }
            let ghost l = Seq::new(v@.len(), |j: int| item_view(v@[j]));
            let mut ok = true;
            let mut j: usize = 0;
            while j < v.len()
                invariant
                    j <= v@.len(),
                    n > 0,
                    l == Seq::new(v@.len(), |k: int| item_view(v@[k])),
                    ok == list_within(l, (n - 1) as nat, j as nat),
                decreases v@.len() - j,
            {
                ok = ok && item_depth_within(&v[j], n - 1);
                j = j + 1;
            }
            ok
        },
        Item::Table(t) => {
            if n == 0 {
                return false;
            }
            proof {
                lemma_table_item_view(*t);
            }
            table_depth_within(t, n - 1)
        },
        _ => true,
    }
}

/// Whether arrays and tables nest at most `n` deep in every value of `t`.
pub fn table_depth_within(t: &Vec<(String, Item)>, n: usize) -> (r: bool)
    ensures
        r == table_depth_within_spec(table_view(t@), n as nat),
    decreases n, 1nat,
{
    let ghost tv = table_view(t@);
    let mut ok = true;
    let mut j: usize = 0;
    while j < t.len()
        invariant
            j <= t@.len(),
            tv == table_view(t@),
            ok == table_within(tv, n as nat, j as nat),
        decreases t@.len() - j,
    {
        ok = ok && item_depth_within(&t[j].1, n);
        j = j + 1;
    }
    ok
}

/// The view of a sequence of table entries.
pub open spec fn table_view(t: Seq<(String, Item)>) -> TableV {
    Seq::new(t.len(), |j: int| (t[j].0@, item_view(t[j].1)))
}

pub proof fn lemma_table_item_view(t: Vec<(String, Item)>)
    ensures
        item_view(Item::Table(t)) == ItemV::Table(table_view(t@)),
{
    match item_view(Item::Table(t)) {
        ItemV::Table(s) => {
            assert(s =~= table_view(t@));
        },
        _ => {},
    }
}

pub proof fn lemma_list_item_view(v: Vec<Item>)
    ensures
        item_view(Item::List(v)) == ItemV::List(Seq::new(v@.len(), |j: int| item_view(v@[j]))),
{
    match item_view(Item::List(v)) {
        ItemV::List(s) => {
            assert(s =~= Seq::new(v@.len(), |j: int| item_view(v@[j])));
        },
        _ => {},
    }
}

/// The view of an optional string.
pub open spec fn option_view(n: Option<String>) -> Option<Seq<char>> {
    match n {
        Some(s) => Some(s@),
        None => None,
    }
}

/// No two entries of the table have the same key.
pub open spec fn keys_unique(t: TableV) -> bool {
    forall|i: int, j: int|
        0 <= i < t.len() && 0 <= j < t.len() && #[trigger] t[i].0 == #[trigger] t[j].0 ==> i == j
}

pub open spec fn has_key(t: TableV, k: Seq<char>) -> bool {
    exists|i: int| 0 <= i < t.len() && #[trigger] t[i].0 == k
}

/// The position of the entry with key `k`, where there is one.
pub open spec fn key_pos(t: TableV, k: Seq<char>) -> int {
    choose|i: int| 0 <= i < t.len() && #[trigger] t[i].0 == k
}

/// The value under key `k`.
pub open spec fn lookup(t: TableV, k: Seq<char>) -> Option<ItemV> {
    if has_key(t, k) {
        Some(t[key_pos(t, k)].1)
    } else {
        None
    }
}

/// The table with `k` mapped to `v`: an entry with that key is overwritten
/// where it stands, else the entry is added at the end.
pub open spec fn set_key(t: TableV, k: Seq<char>, v: ItemV) -> TableV {
    if has_key(t, k) {
        t.update(key_pos(t, k), (k, v))
    } else {
        t.push((k, v))
    }
}

/// Setting a key keeps the keys unique, maps that key to the new value and
/// leaves every other key as it was.
pub proof fn lemma_set_key(t: TableV, k: Seq<char>, v: ItemV)
    requires
        keys_unique(t),
    ensures
        keys_unique(set_key(t, k, v)),
        lookup(set_key(t, k, v), k) == Some(v),
        forall|k2: Seq<char>| k2 != k ==> lookup(set_key(t, k, v), k2) == #[trigger] lookup(t, k2),
{
    let r = set_key(t, k, v);
    if has_key(t, k) {
        let p = key_pos(t, k);
        assert(r[p].0 == k);
        assert forall|k2: Seq<char>| k2 != k implies lookup(r, k2) == #[trigger] lookup(t, k2) by {
            if has_key(t, k2) {
                let q = key_pos(t, k2);
                assert(r[q].0 == k2);
                let q2 = key_pos(r, k2);
                assert(t[q2].0 == k2);
            } else {
                if has_key(r, k2) {
                    let q2 = key_pos(r, k2);
                    assert(t[q2].0 == k2);
                }
            }
        }
    } else {
        let p = t.len() as int;
        assert(r[p].0 == k);
        assert forall|k2: Seq<char>| k2 != k implies lookup(r, k2) == #[trigger] lookup(t, k2) by {
            if has_key(t, k2) {
                let q = key_pos(t, k2);
                assert(r[q].0 == k2);
                let q2 = key_pos(r, k2);
                assert(q2 < p);
            } else {
                if has_key(r, k2) {
                    let q2 = key_pos(r, k2);
                    assert(t[q2].0 == k2);
                }
            }
        }
    }
}

/// Setting a key to the value that it already has changes nothing.
pub proof fn lemma_set_key_present(t: TableV, k: Seq<char>, v: ItemV)
    requires
        keys_unique(t),
        lookup(t, k) == Some(v),
    ensures
        set_key(t, k, v) == t,
{
    let p = key_pos(t, k);
    assert(t[p].0 == k);
    assert(set_key(t, k, v) =~= t);
}

/// The position of the entry with key `k`.
pub fn find_key(t: &Vec<(String, Item)>, k: &String) -> (r: Option<usize>)
    ensures
        match r {
            Some(i) => i < t@.len() && t@[i as int].0@ == k@ && table_view(t@)[i as int].0 == k@,
            None => !has_key(table_view(t@), k@),
        },
{
    let mut i: usize = 0;
    while i < t.len()
        invariant
            i <= t@.len(),
            forall|j: int| 0 <= j < i ==> t@[j].0@ != k@,
        decreases t@.len() - i,
    {
        if t[i].0 == *k {
            return Some(i);
        }
        i = i + 1;
    }
    proof {
        if has_key(table_view(t@), k@) {
            let j = key_pos(table_view(t@), k@);
            assert(t@[j].0@ == k@);
        }
    }
    None
}

/// Maps `k` to `v` in the table: overwrites the entry with key `k` where it
/// stands, or adds one at the end.
pub fn table_set(t: &mut Vec<(String, Item)>, k: String, v: Item)
    requires
        keys_unique(table_view(old(t)@)),
    ensures
        table_view(final(t)@) == set_key(table_view(old(t)@), k@, v@),
        keys_unique(table_view(final(t)@)),
{
    let ghost kv = k@;
    let ghost vv = v@;
    let ghost t0 = table_view(t@);
    proof {
        lemma_set_key(t0, kv, vv);
    }
    match find_key(t, &k) {
        Some(i) => {
            let _ = t.remove(i);
            t.insert(i, (k, v));
            proof {
                assert(t0[i as int].0 == kv);
                assert(key_pos(t0, kv) == i as int);
                assert(table_view(t@) =~= t0.update(i as int, (kv, vv)));
            }
        },
        None => {
            t.push((k, v));
            assert(table_view(t@) =~= t0.push((kv, vv)));
        },
    }
}

} // verus!
