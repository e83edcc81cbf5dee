//! The collections that hold the shell's values: [`Array`], a small vector of strings, and the
//! `FnvHashMap`s that find values by name.

use fnv::FnvHashMap;
use smallvec::SmallVec;
use vstd::prelude::*;

use crate::text::string_views;

verus! {

/// The hasher of the `fnv` crate. Nothing is claimed of what it computes.
#[verifier::external_type_specification]
#[verifier::external_body]
pub struct ExFnvHasher(fnv::FnvHasher);

/// The builder of default hashers of std, by which an `FnvHashMap` makes its hashers.
#[verifier::external_type_specification]
#[verifier::external_body]
#[verifier::reject_recursive_types(H)]
pub struct ExBuildHasherDefault<H>(std::hash::BuildHasherDefault<H>);

/// An array of strings, of which up to four are stored inline.
#[verifier::external_body]
pub struct Array {
    items: SmallVec<[String; 4]>,
}

/// The strings that an array holds, in order.
pub uninterp spec fn array_items(array: Array) -> Seq<Seq<char>>;

impl View for Array {
    type V = Seq<Seq<char>>;

    open spec fn view(&self) -> Seq<Seq<char>> {
        array_items(*self)
    }
}

/// `SmallVec::new`: an empty array.
#[verifier::external_body]
pub(crate) fn array_new() -> (array: Array)
    ensures
        array_items(array) == Seq::<Seq<char>>::empty(),
{
    Array { items: SmallVec::new() }
}

/// `SmallVec::push`: appends one string to the array.
#[verifier::external_body]
pub(crate) fn array_push(array: &mut Array, value: String)
    ensures
        array_items(*final(array)) == array_items(*old(array)).push(value@),
{
    array.items.push(value)
}

/// `SmallVec::as_ref`: the items of the array as a slice, in order.
#[verifier::external_body]
pub(crate) fn array_slice(array: &Array) -> (slice: &[String])
    ensures
        string_views(slice@) == array_items(*array),
{
    array.items.as_ref()
}

/// `SmallVec::clone`: an array with the same items in the same order.
#[verifier::external_body]
pub(crate) fn array_clone(array: &Array) -> (copy: Array)
    ensures
        array_items(copy) == array_items(*array),
{
    Array { items: array.items.clone() }
}

/// `SmallVec::from_iter`: an array of the given strings, in order.
#[verifier::external_body]
pub(crate) fn array_collect(values: Vec<String>) -> (array: Array)
    ensures
        array_items(array) == string_views(values@),
{
    Array { items: values.into_iter().collect() }
}

/// `SmallVec::drain`: takes every item out of the array, in order, and leaves it empty.
#[verifier::external_body]
pub(crate) fn array_drain(array: &mut Array) -> (values: Vec<String>)
    ensures
        string_views(values@) == array_items(*old(array)),
        array_items(*final(array)) == Seq::<Seq<char>>::empty(),
{
    array.items.drain().collect()
}

impl Array {
    /// An array of the given strings, in order.
    pub fn from_strings(values: Vec<String>) -> (array: Array)
        ensures
            array@ == string_views(values@),
    {
        array_collect(values)
    }

    /// The items of the array, in order.
    pub fn as_slice(&self) -> (slice: &[String])
        ensures
            string_views(slice@) == self@,
    {
        array_slice(self)
    }
}

/// Copies of the strings of `values` from `start` on, at most `length` of them.
pub(crate) fn copy_range(values: &[String], start: usize, length: usize) -> (copy: Vec<String>)
    requires
        start <= values@.len(),
    ensures
        string_views(copy@) == clipped(string_views(values@), start as int, length as int),
{
    let available: usize = values.len() - start;
    let taken: usize = if length < available {
        length
    } else {
        available
    };
    let end: usize = start + taken;
    let mut copy: Vec<String> = Vec::new();
    for i in start..end
        invariant
            start <= end <= values@.len(),
            string_views(copy@) =~= string_views(values@).subrange(start as int, i as int),
    {
        let ghost before = copy@;
        copy.push(values[i].clone());
        assert(copy@ == before.push(values@[i as int]));
        assert(string_views(copy@) =~= string_views(before).push(values@[i as int]@));
    }
    copy
}

/// The items of `values` from `start` on, at most `length` of them.
pub open spec fn clipped(values: Seq<Seq<char>>, start: int, length: int) -> Seq<Seq<char>> {
    if start + length < values.len() {
        values.subrange(start, start + length)
    } else {
        values.subrange(start, values.len() as int)
    }
}

/// A map from strings, read as a map from the texts of its keys.
pub open spec fn by_name<V>(map: Map<String, V>) -> Map<Seq<char>, V> {
    Map::new(
        |name: Seq<char>| exists|key: String| key@ == name && map.contains_key(key),
        |name: Seq<char>| map[choose|key: String| key@ == name && map.contains_key(key)],
    )
}

/// The texts that a map of strings holds, by the texts of their keys.
pub open spec fn texts(map: FnvHashMap<String, String>) -> Map<Seq<char>, Seq<char>> {
    by_name(map@).map_values(|value: String| value@)
}

/// `HashMap::get` on an `FnvHashMap`: the value whose key has the given text, if there is one.
#[verifier::external_body]
pub(crate) fn map_get<'a, V>(map: &'a FnvHashMap<String, V>, name: &str) -> (found: Option<&'a V>)
    ensures
        match found {
            Some(value) => by_name(map@).contains_key(name@) && *value == by_name(map@)[name@],
            None => !by_name(map@).contains_key(name@),
        },
{
    map.get(name)
}

/// `HashMap::insert` on an `FnvHashMap`: stores a value under the text of its key, in place of the
/// value that stood there.
#[verifier::external_body]
pub(crate) fn map_insert<V>(map: &mut FnvHashMap<String, V>, name: String, value: V)
    ensures
        by_name(final(map)@) == by_name(old(map)@).insert(name@, value),
{
    map.insert(name, value);
}

/// Whether `entries` holds every entry of `map` once, in some order.
pub open spec fn lists_entries(
    entries: Seq<(&String, &String)>,
    map: Map<Seq<char>, Seq<char>>,
) -> bool {
    &&& forall|i: int, j: int|
        0 <= i < j < entries.len() ==> (#[trigger] entries[i]).0@ != (#[trigger] entries[j]).0@
    &&& forall|i: int|
        0 <= i < entries.len() ==> map.contains_key((#[trigger] entries[i]).0@)
            && map[entries[i].0@] == entries[i].1@
    &&& forall|name: Seq<char>| #[trigger]
        map.contains_key(name) ==> exists|i: int|
            0 <= i < entries.len() && (#[trigger] entries[i]).0@ == name
}

/// `HashMap::iter` on an `FnvHashMap`: every entry of the map once. The order is left open.
#[verifier::external_body]
pub(crate) fn map_entries<'a>(map: &'a FnvHashMap<String, String>) -> (entries: Vec<
    (&'a String, &'a String),
>)
    ensures
        lists_entries(entries@, texts(*map)),
{
    map.iter().collect()
}

/// Whether `values` holds the value of every key of `map` once, in some order of the keys.
pub open spec fn lists_values(values: Seq<Seq<char>>, map: Map<Seq<char>, Seq<char>>) -> bool {
    exists|keys: Seq<Seq<char>>|
        #![trigger keys.no_duplicates()]
        keys.no_duplicates() && keys.to_set() == map.dom() && values == keys.map_values(
            |key: Seq<char>| map[key],
        )
}

/// The values of a map, in some order of its keys.
pub(crate) fn map_values(map: &FnvHashMap<String, String>) -> (values: Array)
    ensures
        lists_values(values@, texts(*map)),
{
    let entries = map_entries(map);
    let mut values = array_new();
    for i in 0..entries.len()
        invariant
            values@ =~= entries@.take(i as int).map_values(|entry: (&String, &String)| entry.1@),
    {
        array_push(&mut values, entries[i].1.clone());
    }
    proof {
        let keys = entries@.map_values(|entry: (&String, &String)| entry.0@);
        let contents = texts(*map);
        assert(entries@.take(entries@.len() as int) =~= entries@);
        assert(keys.to_set() =~= contents.dom()) by {
            assert forall|name: Seq<char>| contents.dom().contains(name) implies keys.to_set().contains(
                name,
            ) by {
                assert(contents.contains_key(name));
                let i = choose|i: int| 0 <= i < entries.len() && (#[trigger] entries@[i]).0@ == name;
                assert(keys[i] == name);
            }
        }
        assert(keys.no_duplicates());
        assert(values@ =~= keys.map_values(|key: Seq<char>| contents[key]));
    }
    values
}

/// A map from strings, read by the texts of its keys, holds a name exactly where one of its keys has
/// that text, and under the name the value of such a key.
pub proof fn lemma_by_name_finds_keys<V>(map: Map<String, V>, name: Seq<char>)
    ensures
        by_name(map).contains_key(name) <==> exists|key: String|
            key@ == name && #[trigger] map.contains_key(key),
        by_name(map).contains_key(name) ==> exists|key: String|
            key@ == name && #[trigger] map.contains_key(key) && by_name(map)[name] == map[key],
{
    if by_name(map).contains_key(name) {
        assert(exists|key: String| key@ == name && map.contains_key(key));
    }
}

/// The texts of a map of strings are those of its values, under the texts of their keys.
pub proof fn lemma_texts_of_values(map: FnvHashMap<String, String>, name: Seq<char>)
    ensures
        texts(map).contains_key(name) <==> by_name(map@).contains_key(name),
        texts(map).contains_key(name) ==> texts(map)[name] == by_name(map@)[name]@,
{
}

/// What is seen of an array is the strings that it holds.
pub proof fn lemma_array_is_seen(array: Array)
    ensures
        array@ == array_items(array),
{
}

} // verus!
