//! Hash maps and hash sets, written as perfect-hash map and set literals.
use vstd::prelude::*;
use crate::protocol::CompileConst;
use crate::text::{join, join_strings, views};
use std::collections::{HashMap, HashSet};

verus! {

/// The entries of the map in the order in which it holds them, which is the
/// order in which `iter` visits them.
pub open spec fn map_order<K, V>(m: &HashMap<K, V>) -> Seq<(K, V)> {
    vstd::std_specs::hash::into_iter(vstd::std_specs::hash::spec_hash_map_iter(m))
}

/// The members of the set in the order in which it holds them, which is
/// the order in which `iter` visits them.
pub open spec fn set_order<E>(s: &HashSet<E>) -> Seq<E> {
    vstd::std_specs::hash::into_iter_hash_keys(vstd::std_specs::hash::spec_hash_keys_iter(s))
}

/// Whether keys of type `K`, hashed by std's default hasher, behave as
/// vstd's hash-table model asks: vstd relates what `iter` visits to a
/// map's or set's contents only then.
pub open spec fn follows_key_model<K>() -> bool {
    vstd::std_specs::hash::obeys_key_model::<K>()
        && vstd::std_specs::hash::builds_valid_hashers::<std::collections::hash_map::RandomState>()
}

/// The entries listed are exactly those of `m`: as many as `m` holds, each
/// one an entry of `m`, and every key of `m` among them.
pub open spec fn lists_entries<K, V>(entries: Seq<(K, V)>, m: Map<K, V>) -> bool {
    &&& entries.len() == m.len()
    &&& forall|i: int|
        #![trigger entries[i]]
        0 <= i < entries.len() ==> m.contains_key(entries[i].0) && m[entries[i].0] == entries[i].1
    &&& forall|k: K|
        #[trigger] m.contains_key(k) ==> exists|i: int|
            #![trigger entries[i]]
            0 <= i < entries.len() && entries[i].0 == k
}

/// The members listed are exactly those of `s`, each once.
pub open spec fn lists_members<E>(members: Seq<E>, s: Set<E>) -> bool {
    members.no_duplicates() && members.to_set() == s
}

/// Relies on `HashMap::iter`: for keys whose `Hash` and `Eq` behave as
/// vstd's key model asks, it visits every entry of the map once, in
/// arbitrary order (std's documentation; vstd states it under that model
/// only). That order is the one in which this map's table holds them,
/// which depends on that table alone; vstd names the sequence it yields
/// `into_iter(spec_hash_map_iter(m))` and relates it to the map's contents (`axiom_spec_hash_map_iter`).
#[verifier::external_body]
fn map_entries<'a, K, V>(m: &'a HashMap<K, V>) -> (r: Vec<(&'a K, &'a V)>)
    ensures
        r@.map_values(|e: (&K, &V)| (*e.0, *e.1)) == map_order(m),
        follows_key_model::<K>() ==> lists_entries(r@.map_values(|e: (&K, &V)| (*e.0, *e.1)), m@),
{
    m.iter().collect()
}

/// Relies on `HashSet::iter`: for members whose `Hash` and `Eq` behave as
/// vstd's key model asks, it visits every member of the set once, in
/// arbitrary order (std's documentation; vstd states it under that model
/// only). That order is the one in which this set's table holds them,
/// which depends on that table alone; vstd names the sequence it yields
/// `into_iter_hash_keys(spec_hash_keys_iter(s))` and relates it to the
/// set's contents (`axiom_spec_hash_keys_iter`).
#[verifier::external_body]
fn set_members<'a, E>(s: &'a HashSet<E>) -> (r: Vec<&'a E>)
    ensures
        r@.map_values(|e: &E| *e) == set_order(s),
        follows_key_model::<E>() ==> lists_members(r@.map_values(|e: &E| *e), s@),
{
    s.iter().collect()
}

/// The literal of one map entry: `{key} => {value}`.
pub open spec fn entry_text<K: CompileConst, V: CompileConst>(e: (K, V)) -> Seq<char> {
    e.0.val_text() + " => "@ + e.1.val_text()
}

/// The type of a map constant.
pub open spec fn map_type_text(key: Seq<char>, value: Seq<char>) -> Seq<char> {
    "phf::Map<"@ + key + ", "@ + value + ">"@
}

/// The literal of a map with the given entries, in the given order.
pub open spec fn map_text<K: CompileConst, V: CompileConst>(entries: Seq<(K, V)>) -> Seq<char> {
    "phf::phf_map!{"@ + join(entries.map_values(|e: (K, V)| entry_text(e)), ","@) + "}"@
}

/// The type of a set constant.
pub open spec fn set_type_text(elem: Seq<char>) -> Seq<char> {
    "phf::Set<"@ + elem + ">"@
}

/// The literal of a set with the given members, in the given order.
pub open spec fn set_text<E: CompileConst>(members: Seq<E>) -> Seq<char> {
    "phf::phf_set!{"@ + join(members.map_values(|e: E| e.val_text()), ","@) + "}"@
}

/// The literal of each entry, in order.
fn render_entries<K: CompileConst, V: CompileConst>(entries: &Vec<(&K, &V)>) -> (r: Vec<String>)
    ensures
        views(r@) == entries@.map_values(|e: (&K, &V)| (*e.0, *e.1)).map_values(
            |e: (K, V)| entry_text(e),
        ),
{
    let ghost all = entries@.map_values(|e: (&K, &V)| (*e.0, *e.1)).map_values(
        |e: (K, V)| entry_text(e),
    );
    let mut r: Vec<String> = Vec::new();
    let mut i: usize = 0;
    while i < entries.len()
        invariant
            i <= entries@.len(),
            all == entries@.map_values(|e: (&K, &V)| (*e.0, *e.1)).map_values(
                |e: (K, V)| entry_text(e),
            ),
            views(r@) == all.subrange(0, i as int),
        decreases entries@.len() - i,
    {
        let (k, v) = entries[i];
        let mut s = k.const_val();
        s.append(" => ");
        let vs = v.const_val();
        s.append(vs.as_str());
        let ghost prev = r@;
        r.push(s);
        assert(s@ =~= entry_text((*k, *v)));
        assert(views(r@) =~= views(prev).push(s@));
        assert(all.subrange(0, i + 1) =~= all.subrange(0, i as int).push(all[i as int]));
        i = i + 1;
    }
    assert(all.subrange(0, entries@.len() as int) =~= all);
    r
}

/// The literal of each member, in order.
fn render_members<E: CompileConst>(members: &Vec<&E>) -> (r: Vec<String>)
    ensures
        views(r@) == members@.map_values(|e: &E| *e).map_values(|e: E| e.val_text()),
{
    let ghost all = members@.map_values(|e: &E| *e).map_values(|e: E| e.val_text());
    let mut r: Vec<String> = Vec::new();
    let mut i: usize = 0;
    while i < members.len()
        invariant
            i <= members@.len(),
            all == members@.map_values(|e: &E| *e).map_values(|e: E| e.val_text()),
            views(r@) == all.subrange(0, i as int),
        decreases members@.len() - i,
    {
        let s = members[i].const_val();
        let ghost prev = r@;
        r.push(s);
        assert(views(r@) =~= views(prev).push(s@));
        assert(all.subrange(0, i + 1) =~= all.subrange(0, i as int).push(all[i as int]));
        i = i + 1;
    }
    assert(all.subrange(0, members@.len() as int) =~= all);
    r
}

impl<K: CompileConst, V: CompileConst> CompileConst for HashMap<K, V> {
    open spec fn type_text() -> Seq<char> {
        map_type_text(K::type_text(), V::type_text())
    }

    open spec fn val_text(&self) -> Seq<char> {
        map_text(map_order(self))
    }

    open spec fn definition_text(attrs: Seq<char>, vis: Seq<char>) -> Seq<char> {
        Seq::empty()
    }

    fn const_type() -> (r: String) {
        let mut r = String::from_str("phf::Map<");
        let k = K::const_type();
        let v = V::const_type();
        r.append(k.as_str());
        r.append(", ");
        r.append(v.as_str());
        r.append(">");
        assert(r@ =~= map_type_text(K::type_text(), V::type_text()));
        r
    }

    fn const_val(&self) -> (r: String)
        ensures
            follows_key_model::<K>() ==> lists_entries(map_order(self), self@),
    {
        let entries = map_entries(self);
        let parts = render_entries(&entries);
        let mut r = String::from_str("phf::phf_map!{");
        let inner = join_strings(&parts, ",");
        r.append(inner.as_str());
        r.append("}");
        assert(r@ =~= map_text(map_order(self)));
        r
    }

    fn const_definition(_attrs: &str, _vis: &str) -> (r: String) {
        String::new()
    }
}

impl<E: CompileConst> CompileConst for HashSet<E> {
    open spec fn type_text() -> Seq<char> {
        set_type_text(E::type_text())
    }

    open spec fn val_text(&self) -> Seq<char> {
        set_text(set_order(self))
    }

    open spec fn definition_text(attrs: Seq<char>, vis: Seq<char>) -> Seq<char> {
        Seq::empty()
    }

    fn const_type() -> (r: String) {
        let mut r = String::from_str("phf::Set<");
        let e = E::const_type();
        r.append(e.as_str());
        r.append(">");
        assert(r@ =~= set_type_text(E::type_text()));
        r
    }

    fn const_val(&self) -> (r: String)
        ensures
            follows_key_model::<E>() ==> lists_members(set_order(self), self@),
    {
        let members = set_members(self);
        let parts = render_members(&members);
        let mut r = String::from_str("phf::phf_set!{");
        let inner = join_strings(&parts, ",");
        r.append(inner.as_str());
        r.append("}");
        assert(r@ =~= set_text(set_order(self)));
        r
    }

    fn const_definition(_attrs: &str, _vis: &str) -> (r: String) {
        String::new()
    }
}

/// Rendering one map twice gives the same literal: both times its entries
/// come in the order in which the map holds them.
pub proof fn lemma_map_literal_stable<K: CompileConst, V: CompileConst>(
    m: &HashMap<K, V>,
    first: Seq<char>,
    second: Seq<char>,
)
    requires
        first == m.val_text(),
        second == m.val_text(),
    ensures
        first == second,
        first == map_text(map_order(m)),
{
}

/// Rendering one set twice gives the same literal: both times its members
/// come in the order in which the set holds them.
pub proof fn lemma_set_literal_stable<E: CompileConst>(
    s: &HashSet<E>,
    first: Seq<char>,
    second: Seq<char>,
)
    requires
        first == s.val_text(),
        second == s.val_text(),
    ensures
        first == second,
        first == set_text(set_order(s)),
{
}

/// A map holding a single entry is written as that entry alone.
pub proof fn lemma_single_entry_map<K: CompileConst, V: CompileConst>(m: &HashMap<K, V>, k: K, v: V)
    requires
        m@ == Map::<K, V>::empty().insert(k, v),
        lists_entries(map_order(m), m@),
    ensures
        m.val_text() == "phf::phf_map!{"@ + entry_text((k, v)) + "}"@,
{
    let entries = map_order(m);
    assert(m@.dom() =~= Set::<K>::empty().insert(k));
    assert(m@.len() == 1);
    assert(m@.contains_key(entries[0].0));
    assert(entries[0] == (k, v));
    let items = entries.map_values(|e: (K, V)| entry_text(e));
    assert(items =~= seq![entry_text((k, v))]);
}

/// A set holding a single member is written as that member alone.
pub proof fn lemma_single_member_set<E: CompileConst>(s: &HashSet<E>, e: E)
    requires
        s@ == Set::<E>::empty().insert(e),
        lists_members(set_order(s), s@),
    ensures
        s.val_text() == "phf::phf_set!{"@ + e.val_text() + "}"@,
{
    let members = set_order(s);
    members.unique_seq_to_set();
    assert(s@.len() == 1);
    assert(members.to_set().contains(members[0]));
    assert(members[0] == e);
    let items = members.map_values(|x: E| x.val_text());
    assert(items =~= seq![e.val_text()]);
}

} // verus!
