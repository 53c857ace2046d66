//! The options that a plugin declares, and the frontend's side of the
//! environment: pixel format, options, and the plain input mask.

use indexmap::IndexMap;
use vstd::prelude::*;
use vstd::string::StringExecFns;
use crate::environment_command::EnvironmentCommand;
use crate::input::{mask_after, GamepadButton};
use crate::state::{decodable, PixelFormat};
use crate::text::{chars_of, string_of};

verus! {

/// An option that a plugin declares: what it is called, what it can be set
/// to, and what it is set to.
#[derive(Debug)]
pub struct Variable {
    pub label: String,
    pub options: Vec<String>,
    pub default: String,
    pub value: String,
}

/// The mathematical content of a [`Variable`].
pub ghost struct VariableView {
    pub label: Seq<char>,
    pub options: Seq<Seq<char>>,
    pub default: Seq<char>,
    pub value: Seq<char>,
}

impl View for Variable {
    type V = VariableView;

    open spec fn view(&self) -> VariableView {
        VariableView {
            label: self.label@,
            options: Seq::new(self.options@.len(), |i: int| self.options@[i]@),
            default: self.default@,
            value: self.value@,
        }
    }
}

/// Why the description of an option cannot be read.
#[derive(Clone, Copy, Debug, PartialEq, Eq, Structural)]
pub enum VariableError {
    /// The description lacks the `"; "` between label and options.
    MissingSeparator,
    /// The first option holds a NUL character, which no value may.
    ValueContainsNul,
}

/// Whether `"; "` stands at position `i` of `s`.
pub open spec fn separator_at(s: Seq<char>, i: int) -> bool {
    0 <= i && i + 1 < s.len() && s[i] == ';' && s[i + 1] == ' '
}

/// Whether the first `"; "` of `s` stands at position `i`.
pub open spec fn first_separator(s: Seq<char>, i: int) -> bool {
    separator_at(s, i) && forall|j: int| 0 <= j < i ==> !separator_at(s, j)
}

/// `s` cut at every `|`.
pub open spec fn options_of(s: Seq<char>) -> Seq<Seq<char>>
    decreases s.len(),
{
    if s.len() == 0 {
        seq![seq![]]
    } else {
        let rest = options_of(s.drop_last());
        if s.last() == '|' {
            rest.push(seq![])
        } else {
            rest.update(rest.len() - 1, rest.last().push(s.last()))
        }
    }
}

/// Cutting at `|` yields at least one piece.
pub proof fn lemma_options_nonempty(s: Seq<char>)
    ensures
        options_of(s).len() >= 1,
    decreases s.len(),
{
    if s.len() > 0 {
        lemma_options_nonempty(s.drop_last());
    }
}

/// The option that the description `s` declares, given the position of its
/// first `"; "`: the label before it, the options after it cut at `|`, and
/// the first option as default and value.
pub open spec fn variable_of(s: Seq<char>, separator: int) -> VariableView {
    let options = options_of(s.skip(separator + 2));
    VariableView {
        label: s.take(separator),
        options,
        default: options[0],
        value: options[0],
    }
}

/// The position of the first `"; "` of `s`, if it has one.
pub open spec fn separator_of(s: Seq<char>) -> Option<int> {
    if exists|i: int| first_separator(s, i) {
        Some(choose|i: int| first_separator(s, i))
    } else {
        None
    }
}

/// What reading the description `s` comes to: the option it declares, or
/// the reason why it declares none.
pub open spec fn reading(s: Seq<char>) -> Result<VariableView, VariableError> {
    match separator_of(s) {
        None => Err(VariableError::MissingSeparator),
        Some(i) => if variable_of(s, i).value.contains('\0') {
            Err(VariableError::ValueContainsNul)
        } else {
            Ok(variable_of(s, i))
        },
    }
}

/// The first `"; "` stands at one position only.
pub proof fn lemma_first_separator_unique(s: Seq<char>, i: int, j: int)
    requires
        first_separator(s, i),
        first_separator(s, j),
    ensures
        i == j,
{
    if i < j {
        assert(!separator_at(s, i));
    } else if j < i {
        assert(!separator_at(s, j));
    }
}

fn find_separator(s: &[char]) -> (r: Option<usize>)
    ensures
        match r {
            Some(at) => separator_of(s@) == Some(at as int) && at + 2 <= s@.len(),
            None => separator_of(s@) is None,
        },
{
    let mut at: usize = 0;
    while at < s.len()
        invariant
            at <= s@.len(),
            forall|j: int| 0 <= j < at ==> !separator_at(s@, j),
        decreases s@.len() - at,
    {
        if s[at] == ';' && at + 1 < s.len() && s[at + 1] == ' ' {
            proof {
                assert(first_separator(s@, at as int));
                lemma_first_separator_unique(
                    s@,
                    at as int,
                    choose|i: int| first_separator(s@, i),
                );
            }
            return Some(at);
        }
        at += 1;
    }
    None
}

fn has_nul(s: &[char]) -> (r: bool)
    ensures
        r == s@.contains('\0'),
{
    let mut i: usize = 0;
    while i < s.len()
        invariant
            i <= s@.len(),
            forall|j: int| 0 <= j < i ==> s@[j] != '\0',
        decreases s@.len() - i,
    {
        if s[i] == '\0' {
            return true;
        }
        i += 1;
    }
    false
}

fn split_options(s: &[char]) -> (r: Vec<Vec<char>>)
    ensures
        r@.len() >= 1,
        Seq::new(r@.len(), |i: int| r@[i]@) == options_of(s@),
{
    let mut done: Vec<Vec<char>> = Vec::new();
    let mut current: Vec<char> = Vec::new();
    let mut i: usize = 0;
    assert(s@.take(0) =~= Seq::<char>::empty());
    assert(Seq::new(done@.len(), |k: int| done@[k]@).push(current@) =~= options_of(s@.take(0)));
    while i < s.len()
        invariant
            i <= s@.len(),
            Seq::new(done@.len(), |k: int| done@[k]@).push(current@) == options_of(
                s@.take(i as int),
            ),
        decreases s@.len() - i,
    {
        let ghost before = Seq::new(done@.len(), |k: int| done@[k]@);
        let ghost piece = current@;
        proof {
            let next = s@.take(i + 1);
            assert(next.drop_last() =~= s@.take(i as int));
            assert(next.last() == s@[i as int]);
        }
        if s[i] == '|' {
            done.push(current);
            current = Vec::new();
            assert(Seq::new(done@.len(), |k: int| done@[k]@) =~= before.push(piece));
        } else {
            current.push(s[i]);
            assert(before.push(current@) =~= before.push(piece).update(
                before.len() as int,
                piece.push(s@[i as int]),
            ));
        }
        i += 1;
    }
    assert(s@.take(s@.len() as int) =~= s@);
    let ghost before = Seq::new(done@.len(), |k: int| done@[k]@);
    let ghost piece = current@;
    done.push(current);
    assert(Seq::new(done@.len(), |k: int| done@[k]@) =~= before.push(piece));
    done
}

impl Variable {
    /// Reads the description of an option: `label; first|second|...`.
    pub fn parse(s: &str) -> (r: Result<Variable, VariableError>)
        ensures
            match r {
                Ok(variable) => reading(s@) == Ok::<VariableView, VariableError>(variable@),
                Err(error) => reading(s@) == Err::<VariableView, VariableError>(error),
            },
    {
        let chars = chars_of(s);
        let at = match find_separator(chars.as_slice()) {
            Some(at) => at,
            None => {
                return Err(VariableError::MissingSeparator);
            },
        };
        let total = chars.len();
        let label = vstd::slice::slice_subrange(chars.as_slice(), 0, at);
        let rest = vstd::slice::slice_subrange(chars.as_slice(), at + 2, total);
        assert(label@ =~= s@.take(at as int));
        assert(rest@ =~= s@.skip(at + 2));
        let pieces = split_options(rest);
        let mut options: Vec<String> = Vec::new();
        let mut i: usize = 0;
        while i < pieces.len()
            invariant
                i <= pieces@.len(),
                options@.len() == i,
                forall|k: int| 0 <= k < i ==> options@[k]@ == pieces@[k]@,
            decreases pieces@.len() - i,
        {
            options.push(string_of(pieces[i].as_slice()));
            i += 1;
        }
        let first = pieces[0].as_slice();
        let variable = Variable {
            label: string_of(label),
            options,
            default: string_of(first),
            value: string_of(first),
        };
        proof {
            assert(variable@.options =~= options_of(s@.skip(at + 2)));
            assert(variable@ == variable_of(s@, at as int));
        }
        if has_nul(first) {
            return Err(VariableError::ValueContainsNul);
        }
        Ok(variable)
    }
}

/// The map from option names to options, in the order of their first
/// declaration.
#[verifier::external_type_specification]
#[verifier::external_body]
#[verifier::reject_recursive_types(K)]
#[verifier::reject_recursive_types(V)]
#[verifier::reject_recursive_types(S)]
pub struct ExIndexMap<K, V, S>(IndexMap<K, V, S>);

/// The entries of a map of options, in its order.
pub uninterp spec fn entries(map: IndexMap<String, Variable>) -> Seq<(Seq<char>, VariableView)>;

/// The entries after `name` is set to `variable`: an entry of that name
/// keeps its place and takes the new option; a new name goes last.
pub open spec fn entries_with(
    entries: Seq<(Seq<char>, VariableView)>,
    name: Seq<char>,
    variable: VariableView,
) -> Seq<(Seq<char>, VariableView)>
    decreases entries.len(),
{
    if entries.len() == 0 {
        seq![(name, variable)]
    } else if entries.first().0 == name {
        seq![(name, variable)] + entries.drop_first()
    } else {
        seq![entries.first()] + entries_with(entries.drop_first(), name, variable)
    }
}

/// The option that the entries hold under `name`.
pub open spec fn entry_named(entries: Seq<(Seq<char>, VariableView)>, name: Seq<char>) -> Option<
    VariableView,
>
    decreases entries.len(),
{
    if entries.len() == 0 {
        None
    } else if entries.first().0 == name {
        Some(entries.first().1)
    } else {
        entry_named(entries.drop_first(), name)
    }
}

/// An empty map: `IndexMap::new`.
#[verifier::external_body]
fn no_variables() -> (r: IndexMap<String, Variable>)
    ensures
        entries(r) == Seq::<(Seq<char>, VariableView)>::empty(),
{
    IndexMap::new()
}

/// Sets an entry: `IndexMap::insert`, which updates the value of a key that
/// is there, in its place, and puts a new key last.
#[verifier::external_body]
fn insert_variable(map: &mut IndexMap<String, Variable>, name: String, variable: Variable)
    ensures
        entries(*final(map)) == entries_with(entries(*old(map)), name@, variable@),
{
    map.insert(name, variable);
}

/// Looks an entry up: `IndexMap::get`.
#[verifier::external_body]
fn get_variable<'a>(map: &'a IndexMap<String, Variable>, name: &str) -> (r: Option<&'a Variable>)
    ensures
        match r {
            Some(variable) => entry_named(entries(*map), name@) == Some(variable@),
            None => entry_named(entries(*map), name@) is None,
        },
{
    map.get(name)
}

/// The frontend's side of the environment.
pub struct Environment {
    variables: IndexMap<String, Variable>,
    pixel_format: PixelFormat,
    input_state: u16,
}

/// The mathematical content of an [`Environment`].
pub ghost struct EnvironmentView {
    pub variables: Seq<(Seq<char>, VariableView)>,
    pub pixel_format: PixelFormat,
    pub input_state: u16,
}

impl View for Environment {
    type V = EnvironmentView;

    closed spec fn view(&self) -> EnvironmentView {
        EnvironmentView {
            variables: entries(self.variables),
            pixel_format: self.pixel_format,
            input_state: self.input_state,
        }
    }
}

/// The entries after the option `name` is declared by `description`:
/// unchanged where the description cannot be read.
pub open spec fn declared(
    entries: Seq<(Seq<char>, VariableView)>,
    name: Seq<char>,
    description: Seq<char>,
) -> Seq<(Seq<char>, VariableView)> {
    match reading(description) {
        Ok(variable) => entries_with(entries, name, variable),
        Err(_) => entries,
    }
}

/// The entries after the options `pairs`, names with descriptions, are
/// declared in order, up to the first description that cannot be read; and
/// whether every description could be read.
pub open spec fn declared_all(
    entries: Seq<(Seq<char>, VariableView)>,
    pairs: Seq<(Seq<char>, Seq<char>)>,
) -> (Seq<(Seq<char>, VariableView)>, bool)
    decreases pairs.len(),
{
    if pairs.len() == 0 {
        (entries, true)
    } else if reading(pairs.first().1) is Ok {
        declared_all(declared(entries, pairs.first().0, pairs.first().1), pairs.drop_first())
    } else {
        (entries, false)
    }
}

/// The views of pairs of strings.
pub open spec fn pair_views(pairs: Seq<(String, String)>) -> Seq<(Seq<char>, Seq<char>)> {
    Seq::new(pairs.len(), |i: int| (pairs[i].0@, pairs[i].1@))
}

/// What the plugin passes along with an environment command, read as the
/// command asks.
#[derive(Debug)]
pub enum Call {
    /// No data, or data that the command does not read.
    Null,
    /// An unsigned number.
    Uint(u32),
    /// A place for a truth value to be written to.
    BoolSlot,
    /// Names of options with their descriptions, in the order declared.
    Variables(Vec<(String, String)>),
    /// The name of an option, with a place for its value.
    Key(String),
}

/// The mathematical content of a [`Call`].
pub ghost enum CallView {
    Null,
    Uint(u32),
    BoolSlot,
    Variables(Seq<(Seq<char>, Seq<char>)>),
    Key(Seq<char>),
}

impl View for Call {
    type V = CallView;

    open spec fn view(&self) -> CallView {
        match *self {
            Call::Null => CallView::Null,
            Call::Uint(value) => CallView::Uint(value),
            Call::BoolSlot => CallView::BoolSlot,
            Call::Variables(pairs) => CallView::Variables(pair_views(pairs@)),
            Call::Key(key) => CallView::Key(key@),
        }
    }
}

/// What goes back to the plugin for an environment command.
#[derive(Debug)]
pub struct Outcome {
    /// What the callback returns.
    pub result: bool,
    /// The truth value to write to the payload's slot, if any.
    pub write_bool: Option<bool>,
    /// The value to write for the option asked for, if any: the option's
    /// value, or nothing where the option was never declared.
    pub write_value: Option<Option<String>>,
}

/// The mathematical content of an [`Outcome`].
pub ghost struct OutcomeView {
    pub result: bool,
    pub write_bool: Option<bool>,
    pub write_value: Option<Option<Seq<char>>>,
}

impl View for Outcome {
    type V = OutcomeView;

    open spec fn view(&self) -> OutcomeView {
        OutcomeView {
            result: self.result,
            write_bool: self.write_bool,
            write_value: match self.write_value {
                Some(Some(value)) => Some(Some(value@)),
                Some(None) => Some(None),
                None => None,
            },
        }
    }
}

/// The outcome that only returns `result`.
pub open spec fn plain(result: bool) -> OutcomeView {
    OutcomeView { result, write_bool: None, write_value: None }
}

/// What an environment command comes to.
///
/// `SET_PIXEL_FORMAT` succeeds where its number names a format that can be
/// decoded. `GET_CAN_DUPE` always succeeds, and says yes where there is
/// room to say it. `SET_VARIABLES` succeeds where every description can be
/// read. `GET_VARIABLE` succeeds where it names an option, declared or not.
/// Everything else fails.
pub open spec fn answered(env: EnvironmentView, command: u32, call: CallView) -> OutcomeView {
    if command == EnvironmentCommand::SET_PIXEL_FORMAT.code() {
        match call {
            CallView::Uint(value) => match PixelFormat::spec_from_uint(value) {
                Some(pixel_format) => plain(decodable(pixel_format)),
                None => plain(false),
            },
            _ => plain(false),
        }
    } else if command == EnvironmentCommand::GET_CAN_DUPE.code() {
        OutcomeView {
            result: true,
            write_bool: if call == CallView::BoolSlot {
                Some(true)
            } else {
                None
            },
            write_value: None,
        }
    } else if command == EnvironmentCommand::SET_VARIABLES.code() {
        match call {
            CallView::Variables(pairs) => plain(declared_all(env.variables, pairs).1),
            _ => plain(false),
        }
    } else if command == EnvironmentCommand::GET_VARIABLE.code() {
        match call {
            CallView::Key(key) => OutcomeView {
                result: true,
                write_bool: None,
                write_value: Some(
                    match entry_named(env.variables, key) {
                        Some(variable) => Some(variable.value),
                        None => None,
                    },
                ),
            },
            _ => plain(false),
        }
    } else {
        plain(false)
    }
}

/// The environment after an environment command.
pub open spec fn after_command(env: EnvironmentView, command: u32, call: CallView) -> EnvironmentView {
    if command == EnvironmentCommand::SET_PIXEL_FORMAT.code() {
        match call {
            CallView::Uint(value) => match PixelFormat::spec_from_uint(value) {
                Some(pixel_format) => if decodable(pixel_format) {
                    EnvironmentView { pixel_format, ..env }
                } else {
                    env
                },
                None => env,
            },
            _ => env,
        }
    } else if command == EnvironmentCommand::SET_VARIABLES.code() {
        match call {
            CallView::Variables(pairs) => EnvironmentView {
                variables: declared_all(env.variables, pairs).0,
                ..env
            },
            _ => env,
        }
    } else {
        env
    }
}

impl Environment {
    /// Serves an environment command of the plugin.
    pub fn environment_cb(&mut self, command: u32, call: Call) -> (r: Outcome)
        ensures
            r@ == answered(old(self)@, command, call@),
            final(self)@ == after_command(old(self)@, command, call@),
    {
        let known = match EnvironmentCommand::from_repr(command) {
            Some(known) => known,
            None => {
                return Outcome { result: false, write_bool: None, write_value: None };
            },
        };
        match known {
            EnvironmentCommand::SET_PIXEL_FORMAT => {
                let result = match call {
                    Call::Uint(value) => match PixelFormat::from_uint(value) {
                        Some(pixel_format) => self.set_pixel_format(pixel_format),
                        None => false,
                    },
                    _ => false,
                };
                Outcome { result, write_bool: None, write_value: None }
            },
            EnvironmentCommand::GET_CAN_DUPE => {
                let write_bool = match call {
                    Call::BoolSlot => Some(true),
                    _ => None,
                };
                Outcome { result: true, write_bool, write_value: None }
            },
            EnvironmentCommand::SET_VARIABLES => {
                let result = match call {
                    Call::Variables(pairs) => self.set_variables(pairs),
                    _ => false,
                };
                Outcome { result, write_bool: None, write_value: None }
            },
            EnvironmentCommand::GET_VARIABLE => {
                match call {
                    Call::Key(key) => {
                        let value = match self.get_variable(key.as_str()) {
                            Some(value) => Some(String::from_str(value)),
                            None => None,
                        };
                        Outcome { result: true, write_bool: None, write_value: Some(value) }
                    },
                    _ => Outcome { result: false, write_bool: None, write_value: None },
                }
            },
            _ => Outcome { result: false, write_bool: None, write_value: None },
        }
    }

    /// The environment before the plugin has said anything: no options, the
    /// default pixel format, no button held.
    pub fn new() -> (r: Environment)
        ensures
            r@ == (EnvironmentView {
                variables: seq![],
                pixel_format: PixelFormat::ARGB1555,
                input_state: 0,
            }),
    {
        Environment {
            variables: no_variables(),
            pixel_format: PixelFormat::ARGB1555,
            input_state: 0,
        }
    }

    /// The pixel format in use.
    pub fn pixel_format(&self) -> (r: &PixelFormat)
        ensures
            *r == self@.pixel_format,
    {
        &self.pixel_format
    }

    /// Takes the pixel format that the plugin asks for where frames of it
    /// can be decoded, and says whether it did.
    pub fn set_pixel_format(&mut self, pixel_format: PixelFormat) -> (r: bool)
        ensures
            r == decodable(pixel_format),
            final(self)@ == if r {
                EnvironmentView { pixel_format, ..old(self)@ }
            } else {
                old(self)@
            },
    {
        match pixel_format {
            PixelFormat::ARGB8888 => {
                self.pixel_format = pixel_format;
                true
            },
            PixelFormat::RGB565 => {
                self.pixel_format = pixel_format;
                true
            },
            _ => false,
        }
    }

    /// Declares the option `key` by its description, and says whether the
    /// description could be read.
    pub fn set_variable(&mut self, key: String, value: &str) -> (r: bool)
        ensures
            r == reading(value@) is Ok,
            final(self)@ == (EnvironmentView {
                variables: declared(old(self)@.variables, key@, value@),
                ..old(self)@
            }),
    {
        match Variable::parse(value) {
            Ok(variable) => {
                insert_variable(&mut self.variables, key, variable);
                true
            },
            Err(_) => {
                false
            },
        }
    }

    /// Declares options in order, and stops at the first whose description
    /// cannot be read. Says whether all were declared.
    pub fn set_variables(&mut self, variables: Vec<(String, String)>) -> (r: bool)
        ensures
            r == declared_all(old(self)@.variables, pair_views(variables@)).1,
            final(self)@ == (EnvironmentView {
                variables: declared_all(old(self)@.variables, pair_views(variables@)).0,
                ..old(self)@
            }),
    {
        let ghost all = pair_views(variables@);
        let ghost start = self@;
        assert(all.skip(0) =~= all);
        for pair in iter: variables
            invariant
                all == pair_views(iter.seq()),
                all == pair_views(variables@),
                start == old(self)@,
                self@.pixel_format == start.pixel_format,
                self@.input_state == start.input_state,
                declared_all(start.variables, all) == declared_all(
                    self@.variables,
                    all.skip(iter.index()),
                ),
        {
            let ghost rest = all.skip(iter.index());
            proof {
                assert(rest.first() == (pair.0@, pair.1@));
                assert(rest.drop_first() =~= all.skip(iter.index() + 1));
            }
            let (key, value) = pair;
            if !self.set_variable(key, value.as_str()) {
                return false;
            }
        }
        assert(all.skip(all.len() as int) =~= Seq::<(Seq<char>, Seq<char>)>::empty());
        true
    }

    /// The value that the option `key` is set to, if it was declared.
    pub fn get_variable(&self, key: &str) -> (r: Option<&str>)
        ensures
            match r {
                Some(value) => entry_named(self@.variables, key@) matches Some(variable)
                    && variable.value == value@,
                None => entry_named(self@.variables, key@) is None,
            },
    {
        match get_variable(&self.variables, key) {
            Some(variable) => Some(variable.value.as_str()),
            None => None,
        }
    }

    /// Applies one press or release of a gamepad button to the plain input
    /// mask.
    pub fn poll_input(&mut self, button: GamepadButton, released: bool)
        ensures
            final(self)@ == (EnvironmentView {
                input_state: mask_after(old(self)@.input_state, button, released),
                ..old(self)@
            }),
    {
        self.input_state = crate::input::poll_input(self.input_state, button, released);
    }

    /// The plain input mask: bit `n` is set while the button that the
    /// plugin interface numbers `n` is held.
    pub fn input_state(&self) -> (r: u16)
        ensures
            r == self@.input_state,
    {
        self.input_state
    }
}

} // verus!
