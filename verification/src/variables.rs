//! The variables of a shell: strings, arrays and maps, and the aliases of commands.

use fnv::FnvHashMap;
use vstd::prelude::*;

use crate::collections::{by_name, map_get, map_insert, texts, Array};

verus! {

/// The aliases, strings, arrays and maps of a shell, each kind under names of its own.
pub struct Variables {
    /// The texts that stand for commands, by the command that they replace.
    pub aliases: FnvHashMap<String, String>,
    /// The string variables, both those of the shell and those that it shares with the environment
    /// of its process. The caller keeps the two in step: what it sets in the environment it sets
    /// here too.
    pub strings: FnvHashMap<String, String>,
    /// The array variables.
    pub arrays: FnvHashMap<String, Array>,
    /// The map variables.
    pub hashmaps: FnvHashMap<String, FnvHashMap<String, String>>,
}

/// What [`Variables`] hold.
#[verifier::ext_equal]
pub struct VariablesView {
    pub aliases: Map<Seq<char>, Seq<char>>,
    pub strings: Map<Seq<char>, Seq<char>>,
    pub arrays: Map<Seq<char>, Seq<Seq<char>>>,
    pub hashmaps: Map<Seq<char>, Map<Seq<char>, Seq<char>>>,
}

impl View for Variables {
    type V = VariablesView;

    open spec fn view(&self) -> VariablesView {
        VariablesView {
            aliases: texts(self.aliases),
            strings: texts(self.strings),
            arrays: by_name(self.arrays@).map_values(|array: Array| array@),
            hashmaps: by_name(self.hashmaps@).map_values(
                |map: FnvHashMap<String, String>| texts(map),
            ),
        }
    }
}

/// The value under a name, if there is one.
pub open spec fn lookup<V>(map: Map<Seq<char>, V>, name: Seq<char>) -> Option<V> {
    if map.contains_key(name) {
        Some(map[name])
    } else {
        None
    }
}

/// The text of an optional string.
pub open spec fn optional_text(value: Option<String>) -> Option<Seq<char>> {
    match value {
        Some(text) => Some(text@),
        None => None,
    }
}

impl VariablesView {
    /// Variables that hold nothing.
    pub open spec fn empty() -> VariablesView {
        VariablesView {
            aliases: Map::empty(),
            strings: Map::empty(),
            arrays: Map::empty(),
            hashmaps: Map::empty(),
        }
    }

    /// The string variable of the given name, or an empty text where there is none.
    pub open spec fn string_or_empty(self, name: Seq<char>) -> Seq<char> {
        if self.strings.contains_key(name) {
            self.strings[name]
        } else {
            Seq::empty()
        }
    }

    /// The variables after a string variable has been set.
    pub open spec fn with_string(self, name: Seq<char>, value: Seq<char>) -> VariablesView {
        VariablesView { strings: self.strings.insert(name, value), ..self }
    }
}

impl Default for Variables {
    /// Variables that hold nothing.
    fn default() -> (variables: Variables)
        ensures
            variables@ == VariablesView::empty(),
    {
        let variables = Variables {
            aliases: FnvHashMap::default(),
            strings: FnvHashMap::default(),
            arrays: FnvHashMap::default(),
            hashmaps: FnvHashMap::default(),
        };
        assert(variables@ =~= VariablesView::empty());
        variables
    }
}

impl Variables {
    /// Sets a string variable.
    pub fn set_var(&mut self, name: &str, value: &str)
        ensures
            final(self)@ == old(self)@.with_string(name@, value@),
    {
        map_insert(&mut self.strings, name.to_owned(), value.to_owned());
        assert(self@ =~= old(self)@.with_string(name@, value@));
    }

    /// Gets a string variable, if it exists.
    pub fn get_var(&self, name: &str) -> (value: Option<String>)
        ensures
            optional_text(value) == lookup(self@.strings, name@),
    {
        match map_get(&self.strings, name) {
            Some(value) => Some(value.clone()),
            None => None,
        }
    }

    /// Gets a string variable, or an empty string if it does not exist.
    pub fn get_var_or_empty(&self, name: &str) -> (value: String)
        ensures
            value@ == self@.string_or_empty(name@),
    {
        match self.get_var(name) {
            Some(value) => value,
            None => String::new(),
        }
    }

    /// Gets an array variable, if it exists.
    pub fn get_array(&self, name: &str) -> (array: Option<&Array>)
        ensures
            match array {
                Some(items) => lookup(self@.arrays, name@) == Some(items@),
                None => lookup(self@.arrays, name@) is None,
            },
    {
        map_get(&self.arrays, name)
    }

    /// Gets a map variable, if it exists.
    pub fn get_map(&self, name: &str) -> (map: Option<&FnvHashMap<String, String>>)
        ensures
            match map {
                Some(entries) => lookup(self@.hashmaps, name@) == Some(texts(*entries)),
                None => lookup(self@.hashmaps, name@) is None,
            },
    {
        map_get(&self.hashmaps, name)
    }

    /// Gets the text that stands for a command, if it has an alias.
    pub fn get_alias(&self, command: &str) -> (alias: Option<String>)
        ensures
            optional_text(alias) == lookup(self@.aliases, command@),
    {
        match map_get(&self.aliases, command) {
            Some(alias) => Some(alias.clone()),
            None => None,
        }
    }
}

/// What was written to a variable is read back, and every other variable stays as it was.
pub proof fn lemma_set_var_read_back(
    variables: VariablesView,
    name: Seq<char>,
    value: Seq<char>,
    other: Seq<char>,
)
    ensures
        lookup(variables.with_string(name, value).strings, name) == Some(value),
        variables.with_string(name, value).string_or_empty(name) == value,
        other != name ==> lookup(variables.with_string(name, value).strings, other) == lookup(
            variables.strings,
            other,
        ),
        variables.with_string(name, value).aliases == variables.aliases,
        variables.with_string(name, value).arrays == variables.arrays,
        variables.with_string(name, value).hashmaps == variables.hashmaps,
{
}

/// Of two writes to one variable the second one stands.
pub proof fn lemma_set_var_last_write_stands(
    variables: VariablesView,
    name: Seq<char>,
    first: Seq<char>,
    second: Seq<char>,
)
    ensures
        variables.with_string(name, first).with_string(name, second) == variables.with_string(
            name,
            second,
        ),
{
    assert(variables.with_string(name, first).with_string(name, second) =~= variables.with_string(
        name,
        second,
    ));
}

/// A name is found in a map exactly where the map holds it, with the value that the map holds. Of the
/// string variables a name that is not found gives an empty text.
pub proof fn lemma_lookup_finds_value<V>(
    map: Map<Seq<char>, V>,
    variables: VariablesView,
    name: Seq<char>,
)
    ensures
        map.contains_key(name) ==> lookup(map, name) == Some(map[name]),
        !map.contains_key(name) ==> lookup(map, name) is None,
        variables.strings.contains_key(name) ==> variables.string_or_empty(name)
            == variables.strings[name],
        !variables.strings.contains_key(name) ==> variables.string_or_empty(name).len() == 0,
{
}

/// An optional string has a text exactly where it is there, which is its own.
pub proof fn lemma_optional_text_is_own(value: Option<String>)
    ensures
        match value {
            Some(text) => optional_text(value) == Some(text@),
            None => optional_text(value) is None,
        },
{
}

/// What is seen of the variables of each kind is what their own map holds, name by name.
pub proof fn lemma_variables_are_seen(variables: Variables, name: Seq<char>)
    ensures
        variables@.aliases == texts(variables.aliases),
        variables@.strings == texts(variables.strings),
        variables@.arrays.contains_key(name) <==> by_name(variables.arrays@).contains_key(name),
        variables@.arrays.contains_key(name) ==> variables@.arrays[name] == by_name(
            variables.arrays@,
        )[name]@,
        variables@.hashmaps.contains_key(name) <==> by_name(variables.hashmaps@).contains_key(name),
        variables@.hashmaps.contains_key(name) ==> variables@.hashmaps[name] == texts(
            by_name(variables.hashmaps@)[name],
        ),
{
}

/// Variables that hold nothing hold no name of any kind.
pub proof fn lemma_empty_holds_no_name(name: Seq<char>)
    ensures
        !VariablesView::empty().aliases.contains_key(name),
        !VariablesView::empty().strings.contains_key(name),
        !VariablesView::empty().arrays.contains_key(name),
        !VariablesView::empty().hashmaps.contains_key(name),
{
}

} // verus!
