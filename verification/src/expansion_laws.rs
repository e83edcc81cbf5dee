//! What holds of every expansion of a variable.

use vstd::prelude::*;

use crate::collections::{by_name, clipped, lists_values, Array};
use crate::shell::{
    expanded_string, expands_to, follows_in_array, from_array, optional_items, ArrayAction,
    ArrayActionView, ArrayEvent, ArrayEventView, Builtin, Select, Selection, SelectionView, Shell,
    ShellView,
};
use crate::text::replaced;
use crate::variables::{lookup, VariablesView};

verus! {

/// An index takes what a range of length one takes from the same position.
pub proof fn lemma_index_is_range_of_one(items: Seq<Seq<char>>, position: usize)
    ensures
        from_array(items, SelectionView::Index(Some(position))) == from_array(
            items,
            SelectionView::Range(Some((position, 1usize))),
        ),
{
    if position < items.len() {
        assert(clipped(items, position as int, 1) =~= seq![items[position as int]]);
    }
}

/// A range that starts at the first item and is long enough takes the whole array.
pub proof fn lemma_long_range_takes_all(items: Seq<Seq<char>>, length: usize)
    requires
        items.len() > 0,
        length >= items.len(),
    ensures
        from_array(items, SelectionView::Range(Some((0usize, length)))) == from_array(
            items,
            SelectionView::All,
        ),
{
    assert(clipped(items, 0, length as int) =~= items);
}

/// Two ranges of which the second starts where the first one ends take, one after the other, what
/// one range takes.
pub proof fn lemma_ranges_join(
    items: Seq<Seq<char>>,
    start: usize,
    middle: usize,
    length: usize,
    whole: usize,
)
    requires
        start <= middle < items.len(),
        whole == middle - start + length,
    ensures
        from_array(items, SelectionView::Range(Some((start, whole)))) == Some(
            from_array(items, SelectionView::Range(Some((start, (middle - start) as usize))))->0
                + from_array(items, SelectionView::Range(Some((middle, length))))->0,
        ),
{
    assert(clipped(items, start as int, whole as int) =~= clipped(items, start as int, middle - start)
        + clipped(items, middle as int, length as int));
}

/// A position outside the array is not there: no index and no range takes anything from it.
pub proof fn lemma_nothing_outside_array(items: Seq<Seq<char>>, start: usize, length: usize)
    requires
        start >= items.len(),
    ensures
        from_array(items, SelectionView::Index(Some(start))) is None,
        from_array(items, SelectionView::Range(Some((start, length)))) is None,
{
}

/// A key is looked up in the map of the given name, whether or not there is an array of that name.
/// A key that the map does not hold gives an empty text.
pub proof fn lemma_key_reads_map(
    variables: VariablesView,
    name: Seq<char>,
    key: Seq<char>,
    found: Option<Seq<Seq<char>>>,
)
    requires
        expands_to(variables, name, SelectionView::Key(key), found),
    ensures
        match lookup(variables.hashmaps, name) {
            Some(map) => found == Some(
                seq![
                    match lookup(map, key) {
                        Some(value) => value,
                        None => Seq::empty(),
                    },
                ],
            ),
            None => found is None,
        },
{
}

/// An expansion is determined by the variables and the selection, but for the order in which all
/// values of a map come.
pub proof fn lemma_expansion_determined(
    variables: VariablesView,
    name: Seq<char>,
    selection: SelectionView,
    one: Option<Seq<Seq<char>>>,
    other: Option<Seq<Seq<char>>>,
)
    requires
        expands_to(variables, name, selection, one),
        expands_to(variables, name, selection, other),
    ensures
        one is Some <==> other is Some,
        one is Some ==> one->0.to_multiset() == other->0.to_multiset(),
        !(selection is All) || variables.arrays.contains_key(name) ==> one == other,
{
    if selection is All && !variables.arrays.contains_key(name)
        && variables.hashmaps.contains_key(name) {
        let map = variables.hashmaps[name];
        assert(lists_values(one->0, map) && lists_values(other->0, map));
        let keys = choose|keys: Seq<Seq<char>>|
            #![trigger keys.no_duplicates()]
            keys.no_duplicates() && keys.to_set() == map.dom() && one->0 == keys.map_values(
                |key: Seq<char>| map[key],
            );
        let others = choose|keys: Seq<Seq<char>>|
            #![trigger keys.no_duplicates()]
            keys.no_duplicates() && keys.to_set() == map.dom() && other->0 == keys.map_values(
                |key: Seq<char>| map[key],
            );
        lemma_values_permute(keys, others, |key: Seq<char>| map[key]);
    }
}

/// The values of the same keys in two orders are the same values.
proof fn lemma_values_permute(
    keys: Seq<Seq<char>>,
    others: Seq<Seq<char>>,
    value: spec_fn(Seq<char>) -> Seq<char>,
)
    requires
        keys.no_duplicates(),
        others.no_duplicates(),
        keys.to_set() == others.to_set(),
    ensures
        keys.map_values(value).to_multiset() == others.map_values(value).to_multiset(),
    decreases keys.len(),
{
    if keys.len() == 0 {
        if others.len() > 0 {
            assert(others.to_set().contains(others[0]));
            assert(keys.to_set().contains(others[0]));
        }
        assert(others =~= keys);
    } else {
        let last = keys.last();
        let rest = keys.drop_last();
        assert(keys.to_set().contains(last));
        assert(others.contains(last));
        let j = choose|j: int| 0 <= j < others.len() && others[j] == last;
        let other_rest = others.remove(j);
        assert(rest.no_duplicates());
        assert(other_rest.no_duplicates());
        assert(rest.to_set() =~= other_rest.to_set()) by {
            assert forall|key: Seq<char>| rest.to_set().contains(key) implies #[trigger] other_rest.to_set().contains(
                key,
            ) by {
                let i = choose|i: int| 0 <= i < rest.len() && rest[i] == key;
                assert(keys[i] == key);
                assert(keys.to_set().contains(key));
                assert(others.contains(key));
                let k = choose|k: int| 0 <= k < others.len() && others[k] == key;
                assert(k != j);
                if k < j {
                    assert(other_rest[k] == key);
                } else {
                    assert(other_rest[k - 1] == key);
                }
            }
            assert forall|key: Seq<char>| other_rest.to_set().contains(key) implies #[trigger] rest.to_set().contains(
                key,
            ) by {
                let i = choose|i: int| 0 <= i < other_rest.len() && other_rest[i] == key;
                let k = if i < j {
                    i
                } else {
                    i + 1
                };
                assert(others[k] == key);
                assert(others.to_set().contains(key));
                assert(keys.contains(key));
                let l = choose|l: int| 0 <= l < keys.len() && keys[l] == key;
                assert(l != keys.len() - 1);
                assert(rest[l] == key);
            }
        }
        lemma_values_permute(rest, other_rest, value);
        let values = keys.map_values(value);
        let other_values = others.map_values(value);
        rest.map_values(value).to_multiset_ensures();
        other_values.to_multiset_ensures();
        assert(values =~= rest.map_values(value).push(value(last)));
        assert(other_values.remove(j) =~= other_rest.map_values(value));
        assert(other_values[j] == value(last));
        assert(other_values.contains(value(last)));
        assert(other_values.to_multiset() =~= other_values.to_multiset().remove(value(last)).insert(
            value(last),
        ));
    }
}

/// Outside quotes a string variable expands to a text of the same length without line feeds, which
/// is its value where that holds none. Quotes make no difference to whether it exists.
pub proof fn lemma_unquoted_text_is_one_line(variables: VariablesView, name: Seq<char>)
    ensures
        expanded_string(variables, name, true) == lookup(variables.strings, name),
        expanded_string(variables, name, false) is Some <==> variables.strings.contains_key(name),
        expanded_string(variables, name, false) matches Some(text) ==> {
            &&& text.len() == variables.strings[name].len()
            &&& !text.contains('\n')
            &&& !variables.strings[name].contains('\n') ==> text == variables.strings[name]
        },
{
    if variables.strings.contains_key(name) {
        let value = variables.strings[name];
        let text = replaced(value, '\n', ' ');
        if text.contains('\n') {
            let i = choose|i: int| 0 <= i < text.len() && text[i] == '\n';
            assert(value[i] == '\n' || value[i] != '\n');
        }
        if !value.contains('\n') {
            assert forall|i: int| 0 <= i < value.len() implies text[i] == value[i] by {
                assert(value[i] != '\n') by {
                    if value[i] == '\n' {
                        assert(value.contains('\n'));
                    }
                }
            }
            assert(text =~= value);
        }
    }
}

/// The shell of a terminal and the shell of a program start in the same state, but for the mark
/// that tells them apart.
pub proof fn lemma_fresh_shells_alike(shell: ShellView, other: ShellView)
    requires
        shell == ShellView::fresh(shell.builtins, shell.variables, false),
        other == ShellView::fresh(shell.builtins, shell.variables, true),
    ensures
        other == (ShellView { is_library: true, ..shell }),
{
}

/// Everything of an array variable is its items themselves, each one whole and in its place, whether
/// or not there is a map of that name.
pub proof fn lemma_all_gives_the_items(
    variables: VariablesView,
    name: Seq<char>,
    found: Option<Seq<Seq<char>>>,
)
    requires
        variables.arrays.contains_key(name),
        expands_to(variables, name, SelectionView::All, found),
    ensures
        found matches Some(items) && items.len() == variables.arrays[name].len() && forall|k: int|
            0 <= k < items.len() ==> #[trigger] items[k] == #[trigger] variables.arrays[name][k],
{
}

/// An index into an array variable gives the one item at that position, whole, and nothing where the
/// array does not reach so far, the index has no position or there is no such array.
pub proof fn lemma_index_gives_the_item(
    variables: VariablesView,
    name: Seq<char>,
    position: Option<usize>,
    found: Option<Seq<Seq<char>>>,
)
    requires
        expands_to(variables, name, SelectionView::Index(position), found),
    ensures
        match position {
            Some(p) => if variables.arrays.contains_key(name) && p < variables.arrays[name].len() {
                found matches Some(items) && items.len() == 1 && items[0]
                    == variables.arrays[name][p as int]
            } else {
                found is None
            },
            None => found is None,
        },
{
}

/// A range of an array variable gives its items from the start of the range on, each one whole and in
/// order, as many as the range is long or as there are. It gives nothing where it starts outside the
/// array, has no bounds or there is no such array.
pub proof fn lemma_range_gives_the_items(
    variables: VariablesView,
    name: Seq<char>,
    bounds: Option<(usize, usize)>,
    found: Option<Seq<Seq<char>>>,
)
    requires
        expands_to(variables, name, SelectionView::Range(bounds), found),
    ensures
        match bounds {
            Some((start, length)) => if variables.arrays.contains_key(name) && start
                < variables.arrays[name].len() {
                &&& found matches Some(items)
                &&& items.len() == (if length < variables.arrays[name].len() - start {
                    length as int
                } else {
                    variables.arrays[name].len() - start
                })
                &&& forall|k: int|
                    0 <= k < items.len() ==> #[trigger] items[k] == variables.arrays[name][start + k]
            } else {
                found is None
            },
            None => found is None,
        },
{
}

/// Without an array of that name, everything of a map variable is the value of each of its keys,
/// whole, and no other text: there are as many items as keys, in some order of the keys. Without a
/// map either there is nothing.
pub proof fn lemma_all_gives_the_values(
    variables: VariablesView,
    name: Seq<char>,
    found: Option<Seq<Seq<char>>>,
)
    requires
        !variables.arrays.contains_key(name),
        expands_to(variables, name, SelectionView::All, found),
    ensures
        if variables.hashmaps.contains_key(name) {
            let map = variables.hashmaps[name];
            &&& found matches Some(items)
            &&& exists|keys: Seq<Seq<char>>|
                {
                    &&& #[trigger] keys.len() == items.len()
                    &&& forall|i: int, j: int|
                        0 <= i < j < keys.len() ==> #[trigger] keys[i] != #[trigger] keys[j]
                    &&& forall|key: Seq<char>|
                        map.contains_key(key) <==> exists|i: int|
                            0 <= i < keys.len() && #[trigger] keys[i] == key
                    &&& forall|i: int| 0 <= i < items.len() ==> #[trigger] items[i] == map[keys[i]]
                }
        } else {
            found is None
        },
{
    if variables.hashmaps.contains_key(name) {
        let map = variables.hashmaps[name];
        let items = found->0;
        assert(lists_values(items, map));
        let keys = choose|keys: Seq<Seq<char>>|
            #![trigger keys.no_duplicates()]
            keys.no_duplicates() && keys.to_set() == map.dom() && items == keys.map_values(
                |key: Seq<char>| map[key],
            );
        assert(keys.len() == items.len());
        assert forall|key: Seq<char>| map.contains_key(key) <==> exists|i: int|
            0 <= i < keys.len() && #[trigger] keys[i] == key by {
            assert(map.contains_key(key) <==> keys.to_set().contains(key));
            assert(keys.to_set().contains(key) <==> keys.contains(key));
        }
    }
}

/// A selection of nothing gives nothing, whatever variables there are.
pub proof fn lemma_nothing_gives_nothing(
    variables: VariablesView,
    name: Seq<char>,
    found: Option<Seq<Seq<char>>>,
)
    requires
        expands_to(variables, name, SelectionView::Nothing, found),
    ensures
        found is None,
{
}

/// What a map holds under a key is given whole, and a key that it does not hold gives one empty text.
/// An array of that name makes no difference.
pub proof fn lemma_key_gives_the_value(
    variables: VariablesView,
    name: Seq<char>,
    key: Seq<char>,
    found: Option<Seq<Seq<char>>>,
)
    requires
        expands_to(variables, name, SelectionView::Key(key), found),
    ensures
        if variables.hashmaps.contains_key(name) {
            &&& found matches Some(items)
            &&& items.len() == 1
            &&& variables.hashmaps[name].contains_key(key) ==> items[0]
                == variables.hashmaps[name][key]
            &&& !variables.hashmaps[name].contains_key(key) ==> items[0].len() == 0
        } else {
            found is None
        },
{
}

/// The expansion of an array returns what its selection takes, or asks for the index or the range to
/// be resolved in an array of the length that the array variable has. Without an array variable of
/// that name there is nothing to resolve, and nothing is given.
pub proof fn lemma_array_steps(
    variables: VariablesView,
    name: Seq<char>,
    event: ArrayEventView,
    action: ArrayActionView,
)
    requires
        follows_in_array(variables, name, event, action),
    ensures
        match event {
            ArrayEventView::Selected(selection) => action matches ArrayActionView::Return(found)
                && expands_to(variables, name, selection, found),
            ArrayEventView::IndexWanted => if variables.arrays.contains_key(name) {
                action matches ArrayActionView::ResolveIndex { length } && length
                    == variables.arrays[name].len()
            } else {
                action matches ArrayActionView::Return(found) && found is None
            },
            ArrayEventView::RangeWanted => if variables.arrays.contains_key(name) {
                action matches ArrayActionView::ResolveRange { length } && length
                    == variables.arrays[name].len()
            } else {
                action matches ArrayActionView::Return(found) && found is None
            },
        },
{
}

/// A string variable expands to its value. Outside quotes a blank stands exactly where the value has
/// a line feed, and every other character stays where it is. What is not set expands to nothing.
pub proof fn lemma_string_expands_by_position(variables: VariablesView, name: Seq<char>)
    ensures
        !variables.strings.contains_key(name) ==> expanded_string(variables, name, true) is None
            && expanded_string(variables, name, false) is None,
        variables.strings.contains_key(name) ==> expanded_string(variables, name, true) == Some(
            variables.strings[name],
        ),
        variables.strings.contains_key(name) ==> {
            let value = variables.strings[name];
            &&& expanded_string(variables, name, false) matches Some(text)
            &&& text.len() == value.len()
            &&& forall|i: int|
                0 <= i < value.len() ==> #[trigger] text[i] == (if value[i] == '\n' {
                    ' '
                } else {
                    value[i]
                })
        },
{
}

/// A fresh shell has the built-in commands and variables that it was given, no functions, no line
/// editor, no flags and no processes, and takes the last command to have succeeded.
pub proof fn lemma_fresh_shell_is_idle(
    builtins: Map<Seq<char>, Builtin>,
    variables: VariablesView,
    is_library: bool,
)
    ensures
        ({
            let shell = ShellView::fresh(builtins, variables, is_library);
            &&& shell.builtins == builtins
            &&& shell.variables == variables
            &&& shell.is_library == is_library
            &&& shell.functions.dom() == Set::<Seq<char>>::empty()
            &&& !shell.has_context
            &&& !shell.is_background_shell
            &&& !shell.break_flow
            &&& shell.flags == 0
            &&& shell.foreground.len() == 0
            &&& shell.previous_status == 0
            &&& shell.previous_job == 0xffff_ffff
        }),
{
}

/// What is seen of a shell is what its fields hold.
pub proof fn lemma_shell_is_seen(shell: Shell)
    ensures
        shell@.builtins == by_name(shell.builtins@),
        shell@.has_context == shell.has_context,
        shell@.variables == shell.variables@,
        shell@.functions == by_name(shell.functions@),
        shell@.previous_status == shell.previous_status,
        shell@.previous_job == shell.previous_job,
        shell@.flags == shell.flags,
        shell@.foreground == shell.foreground@,
        shell@.is_background_shell == shell.is_background_shell,
        shell@.break_flow == shell.break_flow,
        shell@.is_library == shell.is_library,
{
}

/// What is seen of a selection is its kind and the position, the bounds or the key that it holds.
pub proof fn lemma_selection_is_seen(selection: Selection)
    ensures
        match selection {
            Selection::Nothing => selection@ is Nothing,
            Selection::All => selection@ is All,
            Selection::Index(position) => selection@ == SelectionView::Index(position),
            Selection::Range(bounds) => selection@ == SelectionView::Range(bounds),
            Selection::Key(key) => selection@ == SelectionView::Key(key@),
        },
{
}

/// A request for nothing, for everything or for a key is a selection at once. A request for an index
/// or a range becomes one when it has been resolved.
pub proof fn lemma_array_event_is_seen(event: ArrayEvent)
    ensures
        match event {
            ArrayEvent::Requested(Select::Nothing) => event@ == ArrayEventView::Selected(
                SelectionView::Nothing,
            ),
            ArrayEvent::Requested(Select::All) => event@ == ArrayEventView::Selected(
                SelectionView::All,
            ),
            ArrayEvent::Requested(Select::Key(key)) => event@ == ArrayEventView::Selected(
                SelectionView::Key(key@),
            ),
            ArrayEvent::Requested(Select::Index) => event@ is IndexWanted,
            ArrayEvent::Requested(Select::Range) => event@ is RangeWanted,
            ArrayEvent::IndexResolved(position) => event@ == ArrayEventView::Selected(
                SelectionView::Index(position),
            ),
            ArrayEvent::RangeResolved(bounds) => event@ == ArrayEventView::Selected(
                SelectionView::Range(bounds),
            ),
        },
{
}

/// What is seen of an action in the expansion of an array is its kind, and the length or the items
/// that it holds.
pub proof fn lemma_array_action_is_seen(action: ArrayAction)
    ensures
        match action {
            ArrayAction::ResolveIndex { length } => action@ == (ArrayActionView::ResolveIndex {
                length,
            }),
            ArrayAction::ResolveRange { length } => action@ == (ArrayActionView::ResolveRange {
                length,
            }),
            ArrayAction::Return(Some(items)) => action@ == ArrayActionView::Return(Some(items@)),
            ArrayAction::Return(None) => action@ == ArrayActionView::Return(None),
        },
{
}

/// The items of an optional array are its own, exactly where it is there.
pub proof fn lemma_optional_items_are_own(array: Option<Array>)
    ensures
        match array {
            Some(items) => optional_items(array) == Some(items@),
            None => optional_items(array) is None,
        },
{
}

} // verus!
