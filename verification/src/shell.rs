//! The state of a shell, its variables as callers see them, and how it expands them.

use fnv::FnvHashMap;
use vstd::prelude::*;

use crate::collections::{
    array_clone, array_collect, array_slice, by_name, clipped, copy_range, lists_values, map_get,
    map_values, texts, Array,
};
use crate::text::{ascii_replace, replaced, string_views};
use crate::variables::{lookup, optional_text, Variables, VariablesView};

verus! {

/// The exit status of what went well.
pub const SUCCESS: i32 = 0;

/// The exit status of what failed.
pub const FAILURE: i32 = 1;

/// The flag that has the shell print the commands that it executes.
pub const PRINT_COMMS: u8 = 2;

/// The flag that keeps the shell from executing commands.
pub const NO_EXEC: u8 = 4;

/// A command that is built into the shell.
#[derive(Clone, Copy, Debug, PartialEq, Eq, Structural)]
pub struct Builtin {
    /// The number by which the caller finds the command's code.
    pub id: u64,
}

/// A function that a user has defined.
#[derive(Clone, Copy, Debug, PartialEq, Eq, Structural)]
pub struct Function {
    /// The number by which the caller finds the function's parameters and statements.
    pub id: u64,
}

/// The state of a shell throughout a session.
pub struct Shell {
    /// The commands that are built into the shell.
    pub builtins: FnvHashMap<String, Builtin>,
    /// Whether the session has a line editor, whose history takes what the shell records. Only an
    /// interactive session has one.
    pub has_context: bool,
    /// The aliases, strings, arrays and maps.
    pub variables: Variables,
    /// The functions that have been defined.
    pub functions: FnvHashMap<String, Function>,
    /// The exit status of the command that was executed last.
    pub previous_status: i32,
    /// The job number of the command that was sent to the background last.
    pub previous_job: u32,
    /// The flags that control the shell's behaviour.
    pub flags: u8,
    /// The processes of the pipeline in the foreground.
    pub foreground: Vec<u32>,
    /// Whether the shell itself runs as a background job.
    pub is_background_shell: bool,
    /// Whether a signal asks the running statements to stop.
    pub break_flow: bool,
    /// Whether the shell is driven by a program instead of a terminal.
    pub is_library: bool,
}

/// What a [`Shell`] holds.
#[verifier::ext_equal]
pub struct ShellView {
    pub builtins: Map<Seq<char>, Builtin>,
    pub has_context: bool,
    pub variables: VariablesView,
    pub functions: Map<Seq<char>, Function>,
    pub previous_status: i32,
    pub previous_job: u32,
    pub flags: u8,
    pub foreground: Seq<u32>,
    pub is_background_shell: bool,
    pub break_flow: bool,
    pub is_library: bool,
}

impl View for Shell {
    type V = ShellView;

    open spec fn view(&self) -> ShellView {
        ShellView {
            builtins: by_name(self.builtins@),
            has_context: self.has_context,
            variables: self.variables@,
            functions: by_name(self.functions@),
            previous_status: self.previous_status,
            previous_job: self.previous_job,
            flags: self.flags,
            foreground: self.foreground@,
            is_background_shell: self.is_background_shell,
            break_flow: self.break_flow,
            is_library: self.is_library,
        }
    }
}

impl ShellView {
    /// A shell that has executed nothing yet.
    pub open spec fn fresh(
        builtins: Map<Seq<char>, Builtin>,
        variables: VariablesView,
        is_library: bool,
    ) -> ShellView {
        ShellView {
            builtins,
            has_context: false,
            variables,
            functions: Map::empty(),
            previous_status: 0,
            previous_job: u32::MAX,
            flags: 0,
            foreground: Seq::empty(),
            is_background_shell: false,
            break_flow: false,
            is_library,
        }
    }

    /// The shell after a string variable has been set.
    pub open spec fn with_string(self, name: Seq<char>, value: Seq<char>) -> ShellView {
        ShellView { variables: self.variables.with_string(name, value), ..self }
    }
}

/// Which items of an array, or which values of a map, an expansion takes.
pub enum Selection {
    /// Nothing.
    Nothing,
    /// Everything.
    All,
    /// The item at a position. It is absent where the index does not resolve to a position in the
    /// array.
    Index(Option<usize>),
    /// The items from a position on, and their number at most. They are absent where the range does
    /// not resolve to bounds in the array.
    Range(Option<(usize, usize)>),
    /// The value under a key of a map.
    Key(String),
}

/// What a [`Selection`] takes.
pub enum SelectionView {
    Nothing,
    All,
    Index(Option<usize>),
    Range(Option<(usize, usize)>),
    Key(Seq<char>),
}

impl View for Selection {
    type V = SelectionView;

    open spec fn view(&self) -> SelectionView {
        match *self {
            Selection::Nothing => SelectionView::Nothing,
            Selection::All => SelectionView::All,
            Selection::Index(position) => SelectionView::Index(position),
            Selection::Range(bounds) => SelectionView::Range(bounds),
            Selection::Key(key) => SelectionView::Key(key@),
        }
    }
}

/// What an expansion of an array or a map asks for.
pub enum Select {
    /// Nothing.
    Nothing,
    /// Everything.
    All,
    /// The item at an index.
    Index,
    /// The items in a range.
    Range,
    /// The value under a key of a map.
    Key(String),
}

/// What has happened in the expansion of an array.
pub enum ArrayEvent {
    /// The expansion is wanted.
    Requested(Select),
    /// The index has been resolved to a position in the array, if it has one.
    IndexResolved(Option<usize>),
    /// The range has been resolved to a position in the array and a length, if it has them.
    RangeResolved(Option<(usize, usize)>),
}

/// What is to be done next in the expansion of an array.
pub enum ArrayAction {
    /// Resolve the index in an array of this length.
    ResolveIndex { length: usize },
    /// Resolve the range in an array of this length.
    ResolveRange { length: usize },
    /// Return what the expansion gives.
    Return(Option<Array>),
}

/// What an [`ArrayEvent`] tells.
pub enum ArrayEventView {
    /// A selection is known that needs no array to be resolved.
    Selected(SelectionView),
    IndexWanted,
    RangeWanted,
}

/// What an [`ArrayAction`] asks for.
pub enum ArrayActionView {
    ResolveIndex { length: usize },
    ResolveRange { length: usize },
    Return(Option<Seq<Seq<char>>>),
}

impl View for ArrayEvent {
    type V = ArrayEventView;

    open spec fn view(&self) -> ArrayEventView {
        match *self {
            ArrayEvent::Requested(Select::Nothing) => ArrayEventView::Selected(
                SelectionView::Nothing,
            ),
            ArrayEvent::Requested(Select::All) => ArrayEventView::Selected(SelectionView::All),
            ArrayEvent::Requested(Select::Index) => ArrayEventView::IndexWanted,
            ArrayEvent::Requested(Select::Range) => ArrayEventView::RangeWanted,
            ArrayEvent::Requested(Select::Key(key)) => ArrayEventView::Selected(
                SelectionView::Key(key@),
            ),
            ArrayEvent::IndexResolved(position) => ArrayEventView::Selected(
                SelectionView::Index(position),
            ),
            ArrayEvent::RangeResolved(bounds) => ArrayEventView::Selected(
                SelectionView::Range(bounds),
            ),
        }
    }
}

impl View for ArrayAction {
    type V = ArrayActionView;

    open spec fn view(&self) -> ArrayActionView {
        match *self {
            ArrayAction::ResolveIndex { length } => ArrayActionView::ResolveIndex { length },
            ArrayAction::ResolveRange { length } => ArrayActionView::ResolveRange { length },
            ArrayAction::Return(found) => ArrayActionView::Return(optional_items(found)),
        }
    }
}

/// Whether an action follows an event in the expansion of an array. An index or a range is resolved
/// in the array of the given name; without such an array it gives nothing.
pub open spec fn follows_in_array(
    variables: VariablesView,
    name: Seq<char>,
    event: ArrayEventView,
    action: ArrayActionView,
) -> bool {
    match event {
        ArrayEventView::Selected(selection) => action matches ArrayActionView::Return(found)
            && expands_to(variables, name, selection, found),
        ArrayEventView::IndexWanted => match lookup(variables.arrays, name) {
            Some(items) => action matches ArrayActionView::ResolveIndex { length } && length
                == items.len(),
            None => action == ArrayActionView::Return(None),
        },
        ArrayEventView::RangeWanted => match lookup(variables.arrays, name) {
            Some(items) => action matches ArrayActionView::ResolveRange { length } && length
                == items.len(),
            None => action == ArrayActionView::Return(None),
        },
    }
}

/// The items that a selection takes from an array.
pub open spec fn from_array(items: Seq<Seq<char>>, selection: SelectionView) -> Option<
    Seq<Seq<char>>,
> {
    match selection {
        SelectionView::All => Some(items),
        SelectionView::Index(Some(position)) if position < items.len() => Some(
            seq![items[position as int]],
        ),
        SelectionView::Range(Some((start, length))) if start < items.len() => Some(
            clipped(items, start as int, length as int),
        ),
        _ => None,
    }
}

/// Whether `found` is what a selection takes from a map. The order of all values is left open.
pub open spec fn from_map(
    map: Map<Seq<char>, Seq<char>>,
    selection: SelectionView,
    found: Option<Seq<Seq<char>>>,
) -> bool {
    match selection {
        SelectionView::All => found is Some && lists_values(found->0, map),
        SelectionView::Key(key) => found == Some(
            seq![
                if map.contains_key(key) {
                    map[key]
                } else {
                    Seq::empty()
                },
            ],
        ),
        _ => found is None,
    }
}

/// Whether `found` is what a selection takes from the variables of the given name: from the array,
/// or, where the array gives nothing, from the map.
pub open spec fn expands_to(
    variables: VariablesView,
    name: Seq<char>,
    selection: SelectionView,
    found: Option<Seq<Seq<char>>>,
) -> bool {
    let array = lookup(variables.arrays, name);
    let map = lookup(variables.hashmaps, name);
    if array is Some && from_array(array->0, selection) is Some {
        found == from_array(array->0, selection)
    } else if map is Some {
        from_map(map->0, selection, found)
    } else {
        found is None
    }
}

/// The items of an optional array.
pub open spec fn optional_items(array: Option<Array>) -> Option<Seq<Seq<char>>> {
    match array {
        Some(items) => Some(items@),
        None => None,
    }
}

/// The items that a selection takes from an array.
fn select_items(array: &Array, selection: &Selection) -> (found: Option<Array>)
    ensures
        optional_items(found) == from_array(array@, selection@),
{
    let items = array_slice(array);
    match selection {
        Selection::All => Some(array_clone(array)),
        Selection::Index(Some(position)) => if *position < items.len() {
            assert(clipped(array@, *position as int, 1) =~= seq![array@[*position as int]]);
            Some(array_collect(copy_range(items, *position, 1)))
        } else {
            None
        },
        Selection::Range(Some((start, length))) => if items.len() <= *start {
            None
        } else {
            Some(array_collect(copy_range(items, *start, *length)))
        },
        _ => None,
    }
}

/// The values that a selection takes from a map.
fn select_values(map: &FnvHashMap<String, String>, selection: &Selection) -> (found: Option<Array>)
    ensures
        from_map(texts(*map), selection@, optional_items(found)),
{
    match selection {
        Selection::All => Some(map_values(map)),
        Selection::Key(key) => {
            let value = match map_get(map, key.as_str()) {
                Some(value) => value.clone(),
                None => String::new(),
            };
            let mut values: Vec<String> = Vec::new();
            values.push(value);
            assert(string_views(values@) =~= seq![value@]);
            Some(array_collect(values))
        },
        _ => None,
    }
}

impl Shell {
    /// A shell for a terminal, with the given built-in commands and initial variables.
    pub fn new_bin(builtins: FnvHashMap<String, Builtin>, variables: Variables) -> (shell: Shell)
        ensures
            shell@ == ShellView::fresh(by_name(builtins@), variables@, false),
    {
        let shell = Shell {
            builtins,
            has_context: false,
            variables,
            functions: FnvHashMap::default(),
            previous_status: 0,
            previous_job: !0,
            flags: 0,
            foreground: Vec::new(),
            is_background_shell: false,
            break_flow: false,
            is_library: false,
        };
        assert(!0u32 == u32::MAX) by (bit_vector);
        assert(shell@ =~= ShellView::fresh(by_name(builtins@), variables@, false));
        shell
    }

    /// A shell for a program, with the given built-in commands and initial variables.
    pub fn new(builtins: FnvHashMap<String, Builtin>, variables: Variables) -> (shell: Shell)
        ensures
            shell@ == ShellView::fresh(by_name(builtins@), variables@, true),
    {
        let shell = Shell { is_library: true, ..Shell::new_bin(builtins, variables) };
        assert(shell@ =~= ShellView::fresh(by_name(builtins@), variables@, true));
        shell
    }

    /// Sets a variable.
    pub fn set_var(&mut self, name: &str, value: &str)
        ensures
            final(self)@ == old(self)@.with_string(name@, value@),
    {
        self.variables.set_var(name, value);
    }

    /// Gets a variable, if it exists.
    pub fn get_var(&self, name: &str) -> (value: Option<String>)
        ensures
            optional_text(value) == lookup(self@.variables.strings, name@),
    {
        self.variables.get_var(name)
    }

    /// Obtains a variable, returning an empty string if it does not exist.
    pub fn get_var_or_empty(&self, name: &str) -> (value: String)
        ensures
            value@ == self@.variables.string_or_empty(name@),
    {
        self.variables.get_var_or_empty(name)
    }

    /// Gets an array, if it exists.
    pub fn get_array(&self, name: &str) -> (items: Option<&[String]>)
        ensures
            match items {
                Some(slice) => lookup(self@.variables.arrays, name@) == Some(string_views(slice@)),
                None => lookup(self@.variables.arrays, name@) is None,
            },
    {
        match self.variables.get_array(name) {
            Some(array) => Some(array_slice(array)),
            None => None,
        }
    }

    /// What a selection takes from the variables of the given name: from the array, or, where the
    /// array gives nothing, from the map.
    pub fn select(&self, name: &str, selection: Selection) -> (found: Option<Array>)
        ensures
            expands_to(self@.variables, name@, selection@, optional_items(found)),
    {
        let found = match self.variables.get_array(name) {
            Some(array) => select_items(array, &selection),
            None => None,
        };
        match found {
            Some(items) => Some(items),
            None => match self.variables.get_map(name) {
                Some(map) => select_values(map, &selection),
                None => None,
            },
        }
    }

    /// Expands an array variable, or a map variable where the array gives nothing, with some
    /// selection.
    ///
    /// An index or a range is resolved by the caller, who is told the length of the array.
    pub fn array(&self, name: &str, event: ArrayEvent) -> (action: ArrayAction)
        ensures
            follows_in_array(self@.variables, name@, event@, action@),
    {
        match event {
            ArrayEvent::Requested(Select::Nothing) => ArrayAction::Return(
                self.select(name, Selection::Nothing),
            ),
            ArrayEvent::Requested(Select::All) => ArrayAction::Return(
                self.select(name, Selection::All),
            ),
            ArrayEvent::Requested(Select::Index) => match self.get_array(name) {
                Some(items) => ArrayAction::ResolveIndex { length: items.len() },
                None => ArrayAction::Return(None),
            },
            ArrayEvent::Requested(Select::Range) => match self.get_array(name) {
                Some(items) => ArrayAction::ResolveRange { length: items.len() },
                None => ArrayAction::Return(None),
            },
            ArrayEvent::Requested(Select::Key(key)) => ArrayAction::Return(
                self.select(name, Selection::Key(key)),
            ),
            ArrayEvent::IndexResolved(position) => ArrayAction::Return(
                self.select(name, Selection::Index(position)),
            ),
            ArrayEvent::RangeResolved(bounds) => ArrayAction::Return(
                self.select(name, Selection::Range(bounds)),
            ),
        }
    }

    /// Expands a string variable. Outside quotes its line feeds become blanks.
    pub fn variable(&self, name: &str, quoted: bool) -> (value: Option<String>)
        ensures
            optional_text(value) == expanded_string(self@.variables, name@, quoted),
    {
        if quoted {
            self.get_var(name)
        } else {
            match self.get_var(name) {
                Some(value) => Some(ascii_replace(value.as_str(), '\n', ' ')),
                None => None,
            }
        }
    }
}

/// What a string variable expands to.
pub open spec fn expanded_string(variables: VariablesView, name: Seq<char>, quoted: bool) -> Option<
    Seq<char>,
> {
    match lookup(variables.strings, name) {
        Some(value) => Some(
            if quoted {
                value
            } else {
                replaced(value, '\n', ' ')
            },
        ),
        None => None,
    }
}

/// A variable that is set changes that one string variable of the shell, and nothing else.
pub proof fn lemma_set_var_changes_one_string(shell: ShellView, name: Seq<char>, value: Seq<char>)
    ensures
        shell.with_string(name, value).variables.strings == shell.variables.strings.insert(
            name,
            value,
        ),
        shell.with_string(name, value) == (ShellView {
            variables: VariablesView {
                strings: shell.variables.strings.insert(name, value),
                ..shell.variables
            },
            ..shell
        }),
{
}

/// The two flags are independent of each other: to set or to clear one of them leaves the other as
/// it was. Success and failure are different exit statuses.
pub proof fn lemma_flags_are_independent(flags: u8)
    ensures
        (flags | PRINT_COMMS) & PRINT_COMMS != 0,
        (flags | NO_EXEC) & NO_EXEC != 0,
        (flags & !PRINT_COMMS) & PRINT_COMMS == 0,
        (flags & !NO_EXEC) & NO_EXEC == 0,
        (flags | PRINT_COMMS) & NO_EXEC == flags & NO_EXEC,
        (flags | NO_EXEC) & PRINT_COMMS == flags & PRINT_COMMS,
        (flags & !PRINT_COMMS) & NO_EXEC == flags & NO_EXEC,
        (flags & !NO_EXEC) & PRINT_COMMS == flags & PRINT_COMMS,
        SUCCESS != FAILURE,
{
    assert((flags | 2) & 2 != 0 && (flags | 4) & 4 != 0 && (flags & !2) & 2 == 0 && (flags & !4) & 4
        == 0 && (flags | 2) & 4 == flags & 4 && (flags | 4) & 2 == flags & 2 && (flags & !2) & 4
        == flags & 4 && (flags & !4) & 2 == flags & 2) by (bit_vector);
}

} // verus!
