//! Description of a child process to run: program, arguments, working
//! directory, environment changes and stdin.

use qubit_redact::RedactionPolicy;
use std::path::PathBuf;
use vstd::prelude::*;
use vstd::string::StringSliceAdditionalSpecFns;

use crate::command_output::decode_utf8_lossy;
use crate::command_output::utf8_decode_lossy;
use crate::debug_text::quoted_text;
use crate::debug_text::string_debug_text;
use crate::diagnostics::comma_joined;

verus! {

/// Where a command's stdin comes from.
#[derive(Clone)]
pub enum CommandStdin {
    /// An empty stdin.
    Null,
    /// The parent's stdin.
    Inherit,
    /// These bytes, written by a helper.
    Bytes(Vec<u8>),
    /// This file.
    File(PathBuf),
}

/// One argument: its raw value (platform-encoded bytes) and whether its
/// value must be fully redacted in diagnostics.
#[derive(Clone)]
pub struct CommandArgument {
    value: Vec<u8>,
    sensitive: bool,
}

/// A command to run.
#[derive(Clone)]
pub struct Command {
    program: Vec<u8>,
    args: Vec<CommandArgument>,
    working_directory: Option<PathBuf>,
    clear_environment: bool,
    envs: Vec<(Vec<u8>, Vec<u8>)>,
    removed_envs: Vec<Vec<u8>>,
    stdin: CommandStdin,
}

/// The assignments of `envs` whose name is not `key`, in order.
pub open spec fn without_assignment(envs: Seq<(Seq<u8>, Seq<u8>)>, key: Seq<u8>) -> Seq<(Seq<u8>, Seq<u8>)>
    decreases envs.len(),
{
    if envs.len() == 0 {
        seq![]
    } else {
        let earlier = without_assignment(envs.drop_last(), key);
        if envs.last().0 == key {
            earlier
        } else {
            earlier.push(envs.last())
        }
    }
}

/// The names of `names` other than `key`, in order.
pub open spec fn without_name(names: Seq<Seq<u8>>, key: Seq<u8>) -> Seq<Seq<u8>>
    decreases names.len(),
{
    if names.len() == 0 {
        seq![]
    } else {
        let earlier = without_name(names.drop_last(), key);
        if names.last() == key {
            earlier
        } else {
            earlier.push(names.last())
        }
    }
}

/// The value last assigned to `key` in `envs`, if any.
pub open spec fn assigned_value(envs: Seq<(Seq<u8>, Seq<u8>)>, key: Seq<u8>) -> Option<Seq<u8>>
    decreases envs.len(),
{
    if envs.len() == 0 {
        None
    } else if envs.last().0 == key {
        Some(envs.last().1)
    } else {
        assigned_value(envs.drop_last(), key)
    }
}

/// The value of variable `key` in the child's environment, given the
/// environment the child would otherwise inherit: an explicit assignment
/// wins, a removal or a cleared environment hides the inherited value.
pub open spec fn child_env_value(
    clear: bool,
    envs: Seq<(Seq<u8>, Seq<u8>)>,
    removed: Seq<Seq<u8>>,
    inherited: Map<Seq<u8>, Seq<u8>>,
    key: Seq<u8>,
) -> Option<Seq<u8>> {
    match assigned_value(envs, key) {
        Some(value) => Some(value),
        None => if removed.contains(key) || clear || !inherited.contains_key(key) {
            None
        } else {
            Some(inherited[key])
        },
    }
}

/// Removing the assignments of `key` leaves no assignment to it and keeps
/// the others.
pub proof fn lemma_without_assignment(envs: Seq<(Seq<u8>, Seq<u8>)>, key: Seq<u8>, other: Seq<u8>)
    ensures
        assigned_value(without_assignment(envs, key), key).is_none(),
        other != key ==> assigned_value(without_assignment(envs, key), other) == assigned_value(envs, other),
    decreases envs.len(),
{
    if envs.len() > 0 {
        lemma_without_assignment(envs.drop_last(), key, other);
        let earlier = without_assignment(envs.drop_last(), key);
        if envs.last().0 != key {
            assert(earlier.push(envs.last()).drop_last() =~= earlier);
        }
    }
}

/// Removing `key` from a name list removes exactly that name.
pub proof fn lemma_without_name(names: Seq<Seq<u8>>, key: Seq<u8>, other: Seq<u8>)
    ensures
        !without_name(names, key).contains(key),
        other != key ==> (without_name(names, key).contains(other) == names.contains(other)),
    decreases names.len(),
{
    if names.len() > 0 {
        let init = names.drop_last();
        lemma_without_name(init, key, other);
        let earlier = without_name(init, key);
        assert(names =~= init.push(names.last()));
        if names.last() != key {
            assert forall|x: Seq<u8>| earlier.push(names.last()).contains(x) <==> (earlier.contains(x)
                || x == names.last()) by {
                if earlier.push(names.last()).contains(x) {
                    let i = choose|i: int| 0 <= i < earlier.push(names.last()).len()
                        && earlier.push(names.last())[i] == x;
                    if i < earlier.len() {
                        assert(earlier[i] == x);
                    }
                }
                if earlier.contains(x) {
                    let i = choose|i: int| 0 <= i < earlier.len() && earlier[i] == x;
                    assert(earlier.push(names.last())[i] == x);
                }
                if x == names.last() {
                    assert(earlier.push(names.last())[earlier.len() as int] == x);
                }
            }
        }
        assert forall|x: Seq<u8>| names.contains(x) <==> (init.contains(x) || x == names.last()) by {
            if names.contains(x) {
                let i = choose|i: int| 0 <= i < names.len() && names[i] == x;
                if i < init.len() {
                    assert(init[i] == x);
                }
            }
            if init.contains(x) {
                let i = choose|i: int| 0 <= i < init.len() && init[i] == x;
                assert(names[i] == x);
            }
            if x == names.last() {
                assert(names[names.len() - 1] == x);
            }
        }
    }
}

/// Whether two byte strings are equal.
pub fn bytes_equal(left: &[u8], right: &[u8]) -> (equal: bool)
    ensures
        equal == (left@ == right@),
{
    if left.len() != right.len() {
        return false;
    }
    let mut index: usize = 0;
    while index < left.len()
        invariant
            left@.len() == right@.len(),
            index <= left@.len(),
            forall|i: int| 0 <= i < index ==> left@[i] == right@[i],
        decreases left@.len() - index,
    {
        if left[index] != right[index] {
            return false;
        }
        index = index + 1;
    }
    proof {
        assert(left@ =~= right@);
    }
    true
}

/// The ASCII lower-case form of a byte.
pub open spec fn ascii_lower(byte: u8) -> u8 {
    if 65 <= byte <= 90 {
        (byte + 32) as u8
    } else {
        byte
    }
}

/// Whether two byte strings are equal when ASCII letters are compared
/// without regard to case.
pub open spec fn eq_ignore_ascii_case(left: Seq<u8>, right: Seq<u8>) -> bool {
    left.len() == right.len() && forall|i: int| 0 <= i < left.len() ==> ascii_lower(left[i]) == ascii_lower(right[i])
}

/// Compares two byte strings without regard to ASCII case.
pub fn bytes_eq_ignore_ascii_case(left: &[u8], right: &[u8]) -> (equal: bool)
    ensures
        equal == eq_ignore_ascii_case(left@, right@),
{
    if left.len() != right.len() {
        return false;
    }
    let mut index: usize = 0;
    while index < left.len()
        invariant
            left@.len() == right@.len(),
            index <= left@.len(),
            forall|i: int| 0 <= i < index ==> ascii_lower(left@[i]) == ascii_lower(right@[i]),
        decreases left@.len() - index,
    {
        let a = left[index];
        let b = right[index];
        let la: u8 = if 65 <= a && a <= 90 { a + 32 } else { a };
        let lb: u8 = if 65 <= b && b <= 90 { b + 32 } else { b };
        if la != lb {
            return false;
        }
        index = index + 1;
    }
    true
}

/// `sh`
pub open spec fn sh_bytes() -> Seq<u8> {
    seq![115u8, 104u8]
}

/// `-c`
pub open spec fn dash_c_bytes() -> Seq<u8> {
    seq![45u8, 99u8]
}

/// `cmd`
pub open spec fn cmd_bytes() -> Seq<u8> {
    seq![99u8, 109u8, 100u8]
}

/// `cmd.exe`
pub open spec fn cmd_exe_bytes() -> Seq<u8> {
    seq![99u8, 109u8, 100u8, 46u8, 101u8, 120u8, 101u8]
}

/// `/c`
pub open spec fn slash_c_bytes() -> Seq<u8> {
    seq![47u8, 99u8]
}

/// The text shown in place of a shell's command line in diagnostics.
pub open spec fn shell_placeholder_bytes() -> Seq<u8> {
    seq![60u8, 115u8, 104u8, 101u8, 108u8, 108u8, 32u8, 99u8, 111u8, 109u8, 109u8, 97u8, 110u8, 100u8, 62u8]
}

/// Index of the argument that holds a shell's command line: the second
/// argument of `sh -c ...`, or of `cmd /C ...` (`cmd` and `cmd.exe`, and
/// `/C`, compared without regard to ASCII case).
pub open spec fn shell_payload_index(program: Seq<u8>, args: Seq<Seq<u8>>) -> Option<usize> {
    if args.len() < 2 {
        None
    } else if program == sh_bytes() && args[0] == dash_c_bytes() {
        Some(1)
    } else if (eq_ignore_ascii_case(program, cmd_bytes()) || eq_ignore_ascii_case(program, cmd_exe_bytes()))
        && eq_ignore_ascii_case(args[0], slash_c_bytes()) {
        Some(1)
    } else {
        None
    }
}

/// Plain-value image of a displayed argument vector.
pub open spec fn argv_view(argv: Seq<(Vec<u8>, bool)>) -> Seq<(Seq<u8>, bool)> {
    argv.map_values(|item: (Vec<u8>, bool)| (item.0@, item.1))
}

/// The `i`-th argument as diagnostics show it: a shell's command line
/// becomes a placeholder, any other argument keeps its value and
/// sensitivity.
pub open spec fn displayed_arg(command: &Command, i: int) -> (Seq<u8>, bool) {
    if shell_payload_index(command.spec_program(), command.spec_arg_values()) == Some(i as usize) {
        (shell_placeholder_bytes(), false)
    } else {
        (command.spec_arg_values()[i], command.spec_arg_sensitivity()[i])
    }
}

/// The argument vector diagnostics show: the program, then every argument
/// as [`displayed_arg`] shows it.
pub open spec fn display_argv(command: &Command) -> Seq<(Seq<u8>, bool)> {
    seq![(command.spec_program(), false)] + Seq::new(
        command.spec_arg_values().len(),
        |i: int| displayed_arg(command, i),
    )
}

/// Builds a byte vector from listed bytes.
fn bytes_of(bytes: &[u8]) -> (owned: Vec<u8>)
    ensures
        owned@ == bytes@,
{
    vstd::slice::slice_to_vec(bytes)
}

/// Lets argument items for the redactor stand in signatures; their contents
/// are never read by the library.
#[verifier::external_type_specification]
#[verifier::external_body]
pub struct ExArgvItem<'a>(qubit_redact::formats::argv::ArgvItem<'a>);

/// An argument the redactor may show as it is
/// (`qubit_redact::formats::argv::ArgvItem::plain`). The item is opaque, so
/// nothing is stated about it.
#[verifier::external_body]
fn plain_argv_item<'a>(value: &'a str) -> qubit_redact::formats::argv::ArgvItem<'a> {
    qubit_redact::formats::argv::ArgvItem::plain(value.as_ref())
}

/// An argument the redactor treats as secret
/// (`qubit_redact::formats::argv::ArgvItem::sensitive` with
/// `Sensitivity::Secret`). The item is opaque, so nothing is stated about
/// it.
#[verifier::external_body]
fn secret_argv_item<'a>(value: &'a str) -> qubit_redact::formats::argv::ArgvItem<'a> {
    qubit_redact::formats::argv::ArgvItem::sensitive(value.as_ref(), qubit_redact::Sensitivity::Secret)
}

/// Renders argument items through the diagnostic redaction policy
/// (`qubit_redact::Redactor::redact_argv`), falling back to `marker` when
/// redaction cannot complete.
///
/// The text depends on the opaque policy and items, so nothing is stated
/// about it.
#[verifier::external_body]
fn redacted_argv_text(
    policy: &RedactionPolicy,
    items: Vec<qubit_redact::formats::argv::ArgvItem<'_>>,
    marker: &str,
) -> String {
    qubit_redact::Redactor::new(policy.clone()).redact_argv(items).into_text_or_marker(marker).into_string()
}

/// Renders environment assignments through the diagnostic redaction policy
/// (`qubit_redact::Redactor::redact_env_pairs`), falling back to `marker`
/// when redaction cannot complete.
///
/// The text depends on the opaque policy, so nothing is stated about it.
#[verifier::external_body]
fn redacted_env_text(policy: &RedactionPolicy, envs: &[(String, String)], marker: &str) -> String {
    let redactor = qubit_redact::Redactor::new(policy.clone());
    let pairs = envs.iter().map(|(name, value)| (name.as_ref(), value.as_ref()));
    redactor.redact_env_pairs(pairs).into_text_or_marker(marker).into_string()
}

/// The display of a command whose redacted parts are `env_text` and
/// `argv_text`: the argument vector alone when it changes no environment
/// variable, otherwise the form with the environment.
pub open spec fn display_text(command: &Command, env_text: Seq<char>, argv_text: Seq<char>) -> Seq<char> {
    if command.spec_envs().len() == 0 && command.spec_removed().len() == 0 {
        argv_text
    } else {
        display_with_environment(env_text, removed_names_text(command.spec_removed()), argv_text)
    }
}

/// The display of a command that changes environment variables: the
/// redacted assignments, the removed names and the redacted argument vector.
pub open spec fn display_with_environment(env_text: Seq<char>, unset_text: Seq<char>, argv_text: Seq<char>) -> Seq<
    char,
> {
    "Command { env: "@ + env_text + ", unset: "@ + unset_text + ", argv: "@ + argv_text + " }"@
}

/// The removed names as they are displayed: each decoded as UTF-8 with
/// invalid sequences replaced, listed in debug form.
pub open spec fn removed_names_text(removed: Seq<Seq<u8>>) -> Seq<char> {
    string_list_debug_text(removed.map_values(|name: Seq<u8>| utf8_decode_lossy(name)))
}

/// The debug rendering of a list of strings, as a list of strings prints
/// in debug form: each quoted, separated by `, `, in brackets.
pub open spec fn string_list_debug_text(names: Seq<Seq<char>>) -> Seq<char> {
    "["@ + comma_joined(names.map_values(|name: Seq<char>| string_debug_text(name))) + "]"@
}

/// Renders a list of strings in debug form.
fn debug_string_list(names: &Vec<String>) -> (text: String)
    ensures
        text@ == string_list_debug_text(names@.map_values(|name: String| name@)),
{
    let ghost all = names@.map_values(|name: String| name@).map_values(|name: Seq<char>| string_debug_text(name));
    let mut text = String::from_str("[");
    let mut index: usize = 0;
    while index < names.len()
        invariant
            index <= names@.len(),
            all == names@.map_values(|name: String| name@).map_values(|name: Seq<char>| string_debug_text(name)),
            text@ == "["@ + comma_joined(all.subrange(0, index as int)),
        decreases names@.len() - index,
    {
        let ghost before = all.subrange(0, index as int);
        let ghost after = all.subrange(0, index + 1);
        let rendered = quoted_text(names[index].as_str());
        proof {
            assert(after.drop_last() =~= before);
            assert(after.last() == string_debug_text(names@[index as int]@));
        }
        if index > 0 {
            text.append(", ");
        }
        text.append(rendered.as_str());
        proof {
            if index == 0 {
                assert(comma_joined(before) =~= Seq::<char>::empty());
                assert(comma_joined(after) == after[0]);
            } else {
                assert(comma_joined(after) == comma_joined(before) + ", "@ + after.last());
            }
        }
        index = index + 1;
    }
    proof {
        assert(all.subrange(0, names@.len() as int) =~= all);
    }
    text.append("]");
    text
}

impl Command {
    /// The program, as platform-encoded bytes.
    pub closed spec fn spec_program(&self) -> Seq<u8> {
        self.program@
    }

    /// The arguments' values, in order.
    pub closed spec fn spec_arg_values(&self) -> Seq<Seq<u8>> {
        self.args@.map_values(|arg: CommandArgument| arg.value@)
    }

    /// Which arguments are sensitive, in order.
    pub closed spec fn spec_arg_sensitivity(&self) -> Seq<bool> {
        self.args@.map_values(|arg: CommandArgument| arg.sensitive)
    }

    /// The working directory override.
    pub closed spec fn spec_working_directory(&self) -> Option<PathBuf> {
        self.working_directory
    }

    /// Whether the inherited environment is cleared.
    pub closed spec fn spec_clear_environment(&self) -> bool {
        self.clear_environment
    }

    /// The explicit assignments, in order.
    pub closed spec fn spec_envs(&self) -> Seq<(Seq<u8>, Seq<u8>)> {
        self.envs@.map_values(|pair: (Vec<u8>, Vec<u8>)| (pair.0@, pair.1@))
    }

    /// The removed names, in order.
    pub closed spec fn spec_removed(&self) -> Seq<Seq<u8>> {
        self.removed_envs@.map_values(|name: Vec<u8>| name@)
    }

    /// The stdin configuration.
    pub closed spec fn spec_stdin(&self) -> CommandStdin {
        self.stdin
    }

    /// The value of `key` in the child's environment given the inherited
    /// environment.
    pub open spec fn env_value(&self, inherited: Map<Seq<u8>, Seq<u8>>, key: Seq<u8>) -> Option<Seq<u8>> {
        child_env_value(self.spec_clear_environment(), self.spec_envs(), self.spec_removed(), inherited, key)
    }

    /// `self` and `other` agree on everything but the arguments.
    pub open spec fn same_but_args(&self, other: &Command) -> bool {
        &&& self.spec_program() == other.spec_program()
        &&& self.spec_working_directory() == other.spec_working_directory()
        &&& self.spec_clear_environment() == other.spec_clear_environment()
        &&& self.spec_envs() == other.spec_envs()
        &&& self.spec_removed() == other.spec_removed()
        &&& self.spec_stdin() == other.spec_stdin()
    }

    /// `self` and `other` agree on program, arguments, working directory and
    /// stdin.
    pub open spec fn same_but_env(&self, other: &Command) -> bool {
        &&& self.spec_program() == other.spec_program()
        &&& self.spec_arg_values() == other.spec_arg_values()
        &&& self.spec_arg_sensitivity() == other.spec_arg_sensitivity()
        &&& self.spec_working_directory() == other.spec_working_directory()
        &&& self.spec_stdin() == other.spec_stdin()
    }

    /// A command running `program` (platform-encoded bytes) with no
    /// arguments, the inherited environment, and an empty stdin.
    pub fn new_os(program: &[u8]) -> (command: Self)
        ensures
            command.spec_program() == program@,
            command.spec_arg_values().len() == 0,
            command.spec_working_directory().is_none(),
            !command.spec_clear_environment(),
            command.spec_envs().len() == 0,
            command.spec_removed().len() == 0,
            command.spec_stdin() == CommandStdin::Null,
    {
        Command {
            program: bytes_of(program),
            args: Vec::new(),
            working_directory: None,
            clear_environment: false,
            envs: Vec::new(),
            removed_envs: Vec::new(),
            stdin: CommandStdin::Null,
        }
    }

    /// A command running `program` with no arguments, the inherited
    /// environment, and an empty stdin.
    pub fn new(program: &str) -> (command: Self)
        ensures
            command.spec_program() == program.spec_bytes(),
            command.spec_arg_values().len() == 0,
            command.spec_working_directory().is_none(),
            !command.spec_clear_environment(),
            command.spec_envs().len() == 0,
            command.spec_removed().len() == 0,
            command.spec_stdin() == CommandStdin::Null,
    {
        Self::new_os(program.as_bytes())
    }

    /// A command running `command_line` through `sh -c`.
    pub fn shell(command_line: &str) -> (command: Self)
        ensures
            command.spec_program() == sh_bytes(),
            command.spec_arg_values() == seq![dash_c_bytes(), command_line.spec_bytes()],
            command.spec_arg_sensitivity() == seq![false, false],
            command.spec_envs().len() == 0,
            command.spec_removed().len() == 0,
            !command.spec_clear_environment(),
            command.spec_stdin() == CommandStdin::Null,
    {
        let sh: [u8; 2] = [115, 104];
        let dash_c: [u8; 2] = [45, 99];
        let command = Self::new_os(sh.as_slice()).arg_os(dash_c.as_slice()).arg_os(command_line.as_bytes());
        proof {
            assert(sh@ =~= sh_bytes());
            assert(dash_c@ =~= dash_c_bytes());
            assert(command.spec_arg_values() =~= seq![dash_c_bytes(), command_line.spec_bytes()]);
            assert(command.spec_arg_sensitivity() =~= seq![false, false]);
        }
        command
    }

    /// Returns the program.
    pub fn program(&self) -> (program: &[u8])
        ensures
            program@ == self.spec_program(),
    {
        self.program.as_slice()
    }

    /// Returns the number of arguments.
    pub fn argument_count(&self) -> (count: usize)
        ensures
            count == self.spec_arg_values().len(),
    {
        self.args.len()
    }

    /// Returns the argument at `index`.
    pub fn argument(&self, index: usize) -> (value: &[u8])
        requires
            index < self.spec_arg_values().len(),
        ensures
            value@ == self.spec_arg_values()[index as int],
    {
        self.args[index].value.as_slice()
    }

    /// Returns the argument values, in order.
    pub fn arguments(&self) -> (values: Vec<Vec<u8>>)
        ensures
            values@.map_values(|value: Vec<u8>| value@) == self.spec_arg_values(),
    {
        let mut values: Vec<Vec<u8>> = Vec::new();
        let mut index: usize = 0;
        while index < self.args.len()
            invariant
                index <= self.args@.len(),
                values@.map_values(|value: Vec<u8>| value@) == self.spec_arg_values().take(index as int),
            decreases self.args@.len() - index,
        {
            let ghost previous = values@.map_values(|value: Vec<u8>| value@);
            values.push(bytes_of(self.args[index].value.as_slice()));
            proof {
                assert(self.spec_arg_values()[index as int] == self.args@[index as int].value@);
                assert(values@.map_values(|value: Vec<u8>| value@) =~= previous.push(
                    self.args@[index as int].value@,
                ));
                assert(values@.map_values(|value: Vec<u8>| value@) =~= self.spec_arg_values().take(
                    index + 1,
                ));
            }
            index = index + 1;
        }
        proof {
            assert(self.spec_arg_values().take(index as int) =~= self.spec_arg_values());
        }
        values
    }

    /// Appends one argument.
    fn push_argument(self, value: &[u8], sensitive: bool) -> (command: Self)
        ensures
            command.spec_arg_values() == self.spec_arg_values().push(value@),
            command.spec_arg_sensitivity() == self.spec_arg_sensitivity().push(sensitive),
            command.same_but_args(&self),
    {
        let mut command = self;
        command.args.push(CommandArgument { value: bytes_of(value), sensitive });
        proof {
            assert(command.spec_arg_values() =~= self.spec_arg_values().push(value@));
            assert(command.spec_arg_sensitivity() =~= self.spec_arg_sensitivity().push(sensitive));
        }
        command
    }

    /// Appends one argument that diagnostics may show.
    pub fn arg(self, arg: &str) -> (command: Self)
        ensures
            command.spec_arg_values() == self.spec_arg_values().push(arg.spec_bytes()),
            command.spec_arg_sensitivity() == self.spec_arg_sensitivity().push(false),
            command.same_but_args(&self),
    {
        self.push_argument(arg.as_bytes(), false)
    }

    /// Appends one argument (platform-encoded bytes) that diagnostics may
    /// show.
    pub fn arg_os(self, arg: &[u8]) -> (command: Self)
        ensures
            command.spec_arg_values() == self.spec_arg_values().push(arg@),
            command.spec_arg_sensitivity() == self.spec_arg_sensitivity().push(false),
            command.same_but_args(&self),
    {
        self.push_argument(arg, false)
    }

    /// Appends one argument whose value diagnostics fully redact.
    pub fn sensitive_arg(self, arg: &str) -> (command: Self)
        ensures
            command.spec_arg_values() == self.spec_arg_values().push(arg.spec_bytes()),
            command.spec_arg_sensitivity() == self.spec_arg_sensitivity().push(true),
            command.same_but_args(&self),
    {
        self.push_argument(arg.as_bytes(), true)
    }

    /// Appends one argument (platform-encoded bytes) whose value diagnostics
    /// fully redact.
    pub fn sensitive_arg_os(self, arg: &[u8]) -> (command: Self)
        ensures
            command.spec_arg_values() == self.spec_arg_values().push(arg@),
            command.spec_arg_sensitivity() == self.spec_arg_sensitivity().push(true),
            command.same_but_args(&self),
    {
        self.push_argument(arg, true)
    }

    /// Appends arguments that diagnostics may show, in order.
    pub fn args(self, args: &[&str]) -> (command: Self)
        ensures
            command.spec_arg_values() == self.spec_arg_values() + args@.map_values(|arg: &str| arg.spec_bytes()),
            command.spec_arg_sensitivity() == self.spec_arg_sensitivity() + Seq::new(
                args@.len(),
                |i: int| false,
            ),
            command.same_but_args(&self),
    {
        let mut command = self;
        let mut index: usize = 0;
        while index < args.len()
            invariant
                index <= args@.len(),
                command.spec_arg_values() == self.spec_arg_values() + args@.take(index as int).map_values(
                    |arg: &str| arg.spec_bytes(),
                ),
                command.spec_arg_sensitivity() == self.spec_arg_sensitivity() + Seq::new(
                    index as nat,
                    |i: int| false,
                ),
                command.same_but_args(&self),
            decreases args@.len() - index,
        {
            command = command.arg(args[index]);
            proof {
                assert(args@.take(index + 1).map_values(|arg: &str| arg.spec_bytes()) =~= args@.take(
                    index as int,
                ).map_values(|arg: &str| arg.spec_bytes()).push(args@[index as int].spec_bytes()));
                assert(Seq::new((index + 1) as nat, |i: int| false) =~= Seq::new(index as nat, |i: int| false).push(
                    false,
                ));
            }
            index = index + 1;
        }
        proof {
            assert(args@.take(index as int) =~= args@);
        }
        command
    }

    /// Appends platform-encoded arguments that diagnostics may show, in
    /// order.
    pub fn args_os(self, args: &[&[u8]]) -> (command: Self)
        ensures
            command.spec_arg_values() == self.spec_arg_values() + args@.map_values(|arg: &[u8]| arg@),
            command.spec_arg_sensitivity() == self.spec_arg_sensitivity() + Seq::new(
                args@.len(),
                |i: int| false,
            ),
            command.same_but_args(&self),
    {
        let mut command = self;
        let mut index: usize = 0;
        while index < args.len()
            invariant
                index <= args@.len(),
                command.spec_arg_values() == self.spec_arg_values() + args@.take(index as int).map_values(
                    |arg: &[u8]| arg@,
                ),
                command.spec_arg_sensitivity() == self.spec_arg_sensitivity() + Seq::new(
                    index as nat,
                    |i: int| false,
                ),
                command.same_but_args(&self),
            decreases args@.len() - index,
        {
            command = command.arg_os(args[index]);
            proof {
                assert(args@.take(index + 1).map_values(|arg: &[u8]| arg@) =~= args@.take(index as int).map_values(
                    |arg: &[u8]| arg@,
                ).push(args@[index as int]@));
                assert(Seq::new((index + 1) as nat, |i: int| false) =~= Seq::new(index as nat, |i: int| false).push(
                    false,
                ));
            }
            index = index + 1;
        }
        proof {
            assert(args@.take(index as int) =~= args@);
        }
        command
    }

    /// Returns the working directory override.
    pub fn working_directory_override(&self) -> (directory: Option<&PathBuf>)
        ensures
            directory.is_some() == self.spec_working_directory().is_some(),
            directory.is_some() ==> *directory.unwrap() == self.spec_working_directory().unwrap(),
    {
        match &self.working_directory {
            Some(directory) => Some(directory),
            None => None,
        }
    }

    /// Runs the command in `working_directory`.
    pub fn working_directory(self, working_directory: PathBuf) -> (command: Self)
        ensures
            command.spec_working_directory() == Some(working_directory),
            command.spec_program() == self.spec_program(),
            command.spec_arg_values() == self.spec_arg_values(),
            command.spec_arg_sensitivity() == self.spec_arg_sensitivity(),
            command.spec_clear_environment() == self.spec_clear_environment(),
            command.spec_envs() == self.spec_envs(),
            command.spec_removed() == self.spec_removed(),
            command.spec_stdin() == self.spec_stdin(),
    {
        Command { working_directory: Some(working_directory), ..self }
    }

    /// Returns the explicit environment assignments, in order.
    pub fn environment(&self) -> (envs: &[(Vec<u8>, Vec<u8>)])
        ensures
            envs@.map_values(|pair: (Vec<u8>, Vec<u8>)| (pair.0@, pair.1@)) == self.spec_envs(),
    {
        self.envs.as_slice()
    }

    /// Returns the removed variable names, in order.
    pub fn removed_environment(&self) -> (names: &[Vec<u8>])
        ensures
            names@.map_values(|name: Vec<u8>| name@) == self.spec_removed(),
    {
        self.removed_envs.as_slice()
    }

    /// Whether the inherited environment is cleared.
    pub fn clears_environment(&self) -> (clears: bool)
        ensures
            clears == self.spec_clear_environment(),
    {
        self.clear_environment
    }
}

/// Drops every assignment to `key`, keeping the others in order.
fn remove_assignments(envs: Vec<(Vec<u8>, Vec<u8>)>, key: &[u8]) -> (kept: Vec<(Vec<u8>, Vec<u8>)>)
    ensures
        kept@.map_values(|pair: (Vec<u8>, Vec<u8>)| (pair.0@, pair.1@)) == without_assignment(
            envs@.map_values(|pair: (Vec<u8>, Vec<u8>)| (pair.0@, pair.1@)),
            key@,
        ),
{
    let ghost all = envs@.map_values(|pair: (Vec<u8>, Vec<u8>)| (pair.0@, pair.1@));
    let mut rest = envs;
    let mut kept: Vec<(Vec<u8>, Vec<u8>)> = Vec::new();
    let ghost mut done: int = 0;
    while rest.len() > 0
        invariant
            0 <= done <= all.len(),
            rest.len() == all.len() - done,
            forall|i: int| 0 <= i < rest@.len() ==> (rest@[i].0@, rest@[i].1@) == all[done + i],
            kept@.map_values(|pair: (Vec<u8>, Vec<u8>)| (pair.0@, pair.1@)) == without_assignment(
                all.take(done),
                key@,
            ),
        decreases rest.len(),
    {
        let ghost before = rest@;
        let pair = rest.remove(0);
        proof {
            assert((pair.0@, pair.1@) == all[done]);
            assert(all.take(done + 1).drop_last() =~= all.take(done));
            assert(all.take(done + 1).last() == all[done]);
            assert forall|i: int| 0 <= i < rest@.len() implies (rest@[i].0@, rest@[i].1@) == all[done + 1 + i] by {
                assert(rest@[i] == before[i + 1]);
            }
        }
        let matches = bytes_equal(pair.0.as_slice(), key);
        if !matches {
            let ghost previous = kept@.map_values(|pair: (Vec<u8>, Vec<u8>)| (pair.0@, pair.1@));
            kept.push(pair);
            proof {
                assert(kept@.map_values(|pair: (Vec<u8>, Vec<u8>)| (pair.0@, pair.1@)) =~= previous.push(
                    all[done],
                ));
            }
        }
        proof {
            done = done + 1;
        }
    }
    proof {
        assert(all.take(done) =~= all);
    }
    kept
}

/// Drops every occurrence of `key`, keeping the other names in order.
fn remove_names(names: Vec<Vec<u8>>, key: &[u8]) -> (kept: Vec<Vec<u8>>)
    ensures
        kept@.map_values(|name: Vec<u8>| name@) == without_name(names@.map_values(|name: Vec<u8>| name@), key@),
{
    let ghost all = names@.map_values(|name: Vec<u8>| name@);
    let mut rest = names;
    let mut kept: Vec<Vec<u8>> = Vec::new();
    let ghost mut done: int = 0;
    while rest.len() > 0
        invariant
            0 <= done <= all.len(),
            rest.len() == all.len() - done,
            forall|i: int| 0 <= i < rest@.len() ==> rest@[i]@ == all[done + i],
            kept@.map_values(|name: Vec<u8>| name@) == without_name(all.take(done), key@),
        decreases rest.len(),
    {
        let ghost before = rest@;
        let name = rest.remove(0);
        proof {
            assert(name@ == all[done]);
            assert(all.take(done + 1).drop_last() =~= all.take(done));
            assert(all.take(done + 1).last() == all[done]);
            assert forall|i: int| 0 <= i < rest@.len() implies rest@[i]@ == all[done + 1 + i] by {
                assert(rest@[i] == before[i + 1]);
            }
        }
        let matches = bytes_equal(name.as_slice(), key);
        if !matches {
            let ghost previous = kept@.map_values(|name: Vec<u8>| name@);
            kept.push(name);
            proof {
                assert(kept@.map_values(|name: Vec<u8>| name@) =~= previous.push(all[done]));
            }
        }
        proof {
            done = done + 1;
        }
    }
    proof {
        assert(all.take(done) =~= all);
    }
    kept
}

} // verus!

verus! {

impl Command {
    /// Sets variable `key` to `value` in the child's environment, replacing
    /// an earlier assignment or removal of the same name.
    pub fn env_os(self, key: &[u8], value: &[u8]) -> (command: Self)
        ensures
            command.spec_envs() == without_assignment(self.spec_envs(), key@).push((key@, value@)),
            command.spec_removed() == without_name(self.spec_removed(), key@),
            command.spec_clear_environment() == self.spec_clear_environment(),
            command.same_but_env(&self),
            forall|inherited: Map<Seq<u8>, Seq<u8>>| #[trigger] command.env_value(inherited, key@) == Some(value@),
            forall|inherited: Map<Seq<u8>, Seq<u8>>, other: Seq<u8>|
                other != key@ ==> #[trigger] command.env_value(inherited, other) == self.env_value(inherited, other),
    {
        let Command { program, args, working_directory, clear_environment, envs, removed_envs, stdin } = self;
        let removed_envs = remove_names(removed_envs, key);
        let mut envs = remove_assignments(envs, key);
        let ghost kept = envs@.map_values(|pair: (Vec<u8>, Vec<u8>)| (pair.0@, pair.1@));
        envs.push((bytes_of(key), bytes_of(value)));
        let command = Command { program, args, working_directory, clear_environment, envs, removed_envs, stdin };
        proof {
            assert(command.spec_envs() =~= kept.push((key@, value@)));
            assert(kept.push((key@, value@)).drop_last() =~= kept);
            assert forall|inherited: Map<Seq<u8>, Seq<u8>>, other: Seq<u8>|
                other != key@ implies #[trigger] command.env_value(inherited, other) == self.env_value(inherited, other) by {
                lemma_without_assignment(self.spec_envs(), key@, other);
                lemma_without_name(self.spec_removed(), key@, other);
            }
        }
        command
    }

    /// Sets variable `key` to `value` in the child's environment, replacing
    /// an earlier assignment or removal of the same name.
    pub fn env(self, key: &str, value: &str) -> (command: Self)
        ensures
            command.spec_envs() == without_assignment(self.spec_envs(), key.spec_bytes()).push(
                (key.spec_bytes(), value.spec_bytes()),
            ),
            command.spec_removed() == without_name(self.spec_removed(), key.spec_bytes()),
            command.spec_clear_environment() == self.spec_clear_environment(),
            command.same_but_env(&self),
            forall|inherited: Map<Seq<u8>, Seq<u8>>| #[trigger] command.env_value(inherited, key.spec_bytes()) == Some(
                value.spec_bytes(),
            ),
            forall|inherited: Map<Seq<u8>, Seq<u8>>, other: Seq<u8>|
                other != key.spec_bytes() ==> #[trigger] command.env_value(inherited, other) == self.env_value(
                    inherited,
                    other,
                ),
    {
        self.env_os(key.as_bytes(), value.as_bytes())
    }

    /// Removes variable `key` from the child's environment, replacing an
    /// earlier assignment of the same name.
    pub fn env_remove_os(self, key: &[u8]) -> (command: Self)
        ensures
            command.spec_envs() == without_assignment(self.spec_envs(), key@),
            command.spec_removed() == without_name(self.spec_removed(), key@).push(key@),
            command.spec_clear_environment() == self.spec_clear_environment(),
            command.same_but_env(&self),
            forall|inherited: Map<Seq<u8>, Seq<u8>>| #[trigger] command.env_value(inherited, key@).is_none(),
            forall|inherited: Map<Seq<u8>, Seq<u8>>, other: Seq<u8>|
                other != key@ ==> #[trigger] command.env_value(inherited, other) == self.env_value(inherited, other),
    {
        let Command { program, args, working_directory, clear_environment, envs, removed_envs, stdin } = self;
        let envs = remove_assignments(envs, key);
        let mut removed_envs = remove_names(removed_envs, key);
        let ghost kept = removed_envs@.map_values(|name: Vec<u8>| name@);
        removed_envs.push(bytes_of(key));
        let command = Command { program, args, working_directory, clear_environment, envs, removed_envs, stdin };
        proof {
            assert(command.spec_removed() =~= kept.push(key@));
            assert(kept.push(key@)[kept.len() as int] == key@);
            lemma_without_assignment(self.spec_envs(), key@, key@);
            assert forall|inherited: Map<Seq<u8>, Seq<u8>>, other: Seq<u8>|
                other != key@ implies #[trigger] command.env_value(inherited, other) == self.env_value(inherited, other) by {
                lemma_without_assignment(self.spec_envs(), key@, other);
                lemma_without_name(self.spec_removed(), key@, other);
                assert(kept.push(key@).contains(other) == kept.contains(other)) by {
                    if kept.push(key@).contains(other) {
                        let i = choose|i: int| 0 <= i < kept.push(key@).len() && kept.push(key@)[i] == other;
                        assert(i < kept.len());
                        assert(kept[i] == other);
                    }
                    if kept.contains(other) {
                        let i = choose|i: int| 0 <= i < kept.len() && kept[i] == other;
                        assert(kept.push(key@)[i] == other);
                    }
                }
            }
        }
        command
    }

    /// Removes variable `key` from the child's environment, replacing an
    /// earlier assignment of the same name.
    pub fn env_remove(self, key: &str) -> (command: Self)
        ensures
            command.spec_envs() == without_assignment(self.spec_envs(), key.spec_bytes()),
            command.spec_removed() == without_name(self.spec_removed(), key.spec_bytes()).push(key.spec_bytes()),
            command.spec_clear_environment() == self.spec_clear_environment(),
            command.same_but_env(&self),
            forall|inherited: Map<Seq<u8>, Seq<u8>>| #[trigger] command.env_value(inherited, key.spec_bytes()).is_none(),
            forall|inherited: Map<Seq<u8>, Seq<u8>>, other: Seq<u8>|
                other != key.spec_bytes() ==> #[trigger] command.env_value(inherited, other) == self.env_value(
                    inherited,
                    other,
                ),
    {
        self.env_remove_os(key.as_bytes())
    }

    /// Clears the inherited environment and forgets earlier assignments and
    /// removals.
    pub fn env_clear(self) -> (command: Self)
        ensures
            command.spec_clear_environment(),
            command.spec_envs().len() == 0,
            command.spec_removed().len() == 0,
            command.same_but_env(&self),
            forall|inherited: Map<Seq<u8>, Seq<u8>>, key: Seq<u8>| #[trigger] command.env_value(inherited, key).is_none(),
    {
        let Command { program, args, working_directory, stdin, .. } = self;
        let command = Command {
            program,
            args,
            working_directory,
            clear_environment: true,
            envs: Vec::new(),
            removed_envs: Vec::new(),
            stdin,
        };
        proof {
            assert(command.spec_envs() =~= Seq::<(Seq<u8>, Seq<u8>)>::empty());
        }
        command
    }

    /// Gives the child an empty stdin.
    pub fn stdin_null(self) -> (command: Self)
        ensures
            command.spec_stdin() == CommandStdin::Null,
            command.spec_program() == self.spec_program(),
            command.spec_arg_values() == self.spec_arg_values(),
            command.spec_envs() == self.spec_envs(),
            command.spec_removed() == self.spec_removed(),
    {
        Command { stdin: CommandStdin::Null, ..self }
    }

    /// Lets the child inherit the parent's stdin.
    pub fn stdin_inherit(self) -> (command: Self)
        ensures
            command.spec_stdin() == CommandStdin::Inherit,
            command.spec_program() == self.spec_program(),
            command.spec_arg_values() == self.spec_arg_values(),
            command.spec_envs() == self.spec_envs(),
            command.spec_removed() == self.spec_removed(),
    {
        Command { stdin: CommandStdin::Inherit, ..self }
    }

    /// Writes `bytes` to the child's stdin.
    pub fn stdin_bytes(self, bytes: Vec<u8>) -> (command: Self)
        ensures
            command.spec_stdin() == CommandStdin::Bytes(bytes),
            command.spec_program() == self.spec_program(),
            command.spec_arg_values() == self.spec_arg_values(),
            command.spec_envs() == self.spec_envs(),
            command.spec_removed() == self.spec_removed(),
    {
        Command { stdin: CommandStdin::Bytes(bytes), ..self }
    }

    /// Reads the child's stdin from the file at `path`.
    pub fn stdin_file(self, path: PathBuf) -> (command: Self)
        ensures
            command.spec_stdin() == CommandStdin::File(path),
            command.spec_program() == self.spec_program(),
            command.spec_arg_values() == self.spec_arg_values(),
            command.spec_envs() == self.spec_envs(),
            command.spec_removed() == self.spec_removed(),
    {
        Command { stdin: CommandStdin::File(path), ..self }
    }

    /// Consumes the command and returns its stdin configuration.
    pub fn into_stdin_configuration(self) -> (stdin: CommandStdin)
        ensures
            stdin == self.spec_stdin(),
    {
        self.stdin
    }

    /// Returns the index of the argument that holds a shell's command line.
    pub fn shell_payload_arg_index(&self) -> (index: Option<usize>)
        ensures
            index == shell_payload_index(self.spec_program(), self.spec_arg_values()),
    {
        if self.args.len() < 2 {
            return None;
        }
        let first = self.args[0].value.as_slice();
        let program = self.program.as_slice();
        proof {
            assert(first@ == self.spec_arg_values()[0]);
        }
        let sh: [u8; 2] = [115, 104];
        let dash_c: [u8; 2] = [45, 99];
        let cmd: [u8; 3] = [99, 109, 100];
        let cmd_exe: [u8; 7] = [99, 109, 100, 46, 101, 120, 101];
        let slash_c: [u8; 2] = [47, 99];
        proof {
            assert(sh@ =~= sh_bytes());
            assert(dash_c@ =~= dash_c_bytes());
            assert(cmd@ =~= cmd_bytes());
            assert(cmd_exe@ =~= cmd_exe_bytes());
            assert(slash_c@ =~= slash_c_bytes());
        }
        if bytes_equal(program, sh.as_slice()) && bytes_equal(first, dash_c.as_slice()) {
            return Some(1);
        }
        if (bytes_eq_ignore_ascii_case(program, cmd.as_slice()) || bytes_eq_ignore_ascii_case(
            program,
            cmd_exe.as_slice(),
        )) && bytes_eq_ignore_ascii_case(first, slash_c.as_slice()) {
            return Some(1);
        }
        None
    }

    /// The argument vector shown in diagnostics: the program, then each
    /// argument with its sensitivity, a shell's command line replaced by a
    /// placeholder.
    pub fn argv_for_display(&self) -> (argv: Vec<(Vec<u8>, bool)>)
        ensures
            argv_view(argv@) == display_argv(self),
    {
        let payload = self.shell_payload_arg_index();
        let placeholder: [u8; 15] = [60, 115, 104, 101, 108, 108, 32, 99, 111, 109, 109, 97, 110, 100, 62];
        proof {
            assert(placeholder@ =~= shell_placeholder_bytes());
        }
        let mut argv: Vec<(Vec<u8>, bool)> = Vec::new();
        argv.push((bytes_of(self.program.as_slice()), false));
        proof {
            assert(argv_view(argv@) =~= seq![(self.spec_program(), false)] + Seq::new(
                0,
                |i: int| displayed_arg(self, i),
            ));
        }
        let mut index: usize = 0;
        while index < self.args.len()
            invariant
                index <= self.args@.len(),
                self.args@.len() == self.spec_arg_values().len(),
                payload == shell_payload_index(self.spec_program(), self.spec_arg_values()),
                placeholder@ == shell_placeholder_bytes(),
                argv_view(argv@) == seq![(self.spec_program(), false)] + Seq::new(
                    index as nat,
                    |i: int| displayed_arg(self, i),
                ),
            decreases self.args@.len() - index,
        {
            let is_payload = match payload {
                Some(payload_index) => payload_index == index,
                None => false,
            };
            proof {
                assert(self.spec_arg_values()[index as int] == self.args@[index as int].value@);
                assert(self.spec_arg_sensitivity()[index as int] == self.args@[index as int].sensitive);
            }
            let ghost previous = argv_view(argv@);
            if is_payload {
                argv.push((bytes_of(placeholder.as_slice()), false));
            } else {
                argv.push((bytes_of(self.args[index].value.as_slice()), self.args[index].sensitive));
            }
            proof {
                assert(argv_view(argv@) =~= previous.push(displayed_arg(self, index as int)));
                assert(seq![(self.spec_program(), false)] + Seq::new((index + 1) as nat, |i: int| displayed_arg(self, i))
                    =~= (seq![(self.spec_program(), false)] + Seq::new(index as nat, |i: int| displayed_arg(self, i))).push(
                    displayed_arg(self, index as int),
                ));
            }
            index = index + 1;
        }
        argv
    }

    /// The arguments handed to the argument redactor: each value of the
    /// displayed argument vector decoded as UTF-8 (invalid sequences
    /// replaced), with its sensitivity.
    fn argv_redaction_values(&self) -> (values: Vec<(String, bool)>)
        ensures
            values@.len() == display_argv(self).len(),
            forall|i: int|
                0 <= i < values@.len() ==> (#[trigger] values@[i]).0@ == utf8_decode_lossy(display_argv(self)[i].0)
                    && values@[i].1 == display_argv(self)[i].1,
    {
        let argv = self.argv_for_display();
        let ghost shown = display_argv(self);
        let mut values: Vec<(String, bool)> = Vec::new();
        let mut index: usize = 0;
        while index < argv.len()
            invariant
                index <= argv@.len(),
                argv_view(argv@) == shown,
                shown == display_argv(self),
                values@.len() == index,
                forall|i: int|
                    0 <= i < index ==> (#[trigger] values@[i]).0@ == utf8_decode_lossy(shown[i].0) && values@[i].1
                        == shown[i].1,
            decreases argv@.len() - index,
        {
            proof {
                assert(shown[index as int] == (argv@[index as int].0@, argv@[index as int].1));
            }
            values.push((decode_utf8_lossy(argv[index].0.as_slice()), argv[index].1));
            index = index + 1;
        }
        values
    }

    /// The command text built from its redacted parts: `rendered_argv`
    /// alone when the command changes no environment variable, otherwise
    /// `Command { env: E, unset: U, argv: A }` with `rendered_env`, the
    /// removed names and `rendered_argv`.
    pub fn display_from_parts(&self, rendered_env: &str, rendered_argv: &str) -> (text: String)
        ensures
            text@ == display_text(self, rendered_env@, rendered_argv@),
    {
        if self.envs.len() == 0 && self.removed_envs.len() == 0 {
            return String::from_str(rendered_argv);
        }
        let mut names: Vec<String> = Vec::new();
        let mut index: usize = 0;
        while index < self.removed_envs.len()
            invariant
                index <= self.removed_envs@.len(),
                names@.map_values(|name: String| name@) == self.spec_removed().take(index as int).map_values(
                    |name: Seq<u8>| utf8_decode_lossy(name),
                ),
            decreases self.removed_envs@.len() - index,
        {
            let name = decode_utf8_lossy(self.removed_envs[index].as_slice());
            let ghost before = names@;
            names.push(name);
            proof {
                assert(self.spec_removed()[index as int] == self.removed_envs@[index as int]@);
                assert(names@.map_values(|name: String| name@) =~= before.map_values(|name: String| name@).push(
                    name@,
                ));
                assert(self.spec_removed().take(index + 1).map_values(|name: Seq<u8>| utf8_decode_lossy(name))
                    =~= self.spec_removed().take(index as int).map_values(|name: Seq<u8>| utf8_decode_lossy(name)).push(
                    utf8_decode_lossy(self.spec_removed()[index as int]),
                ));
            }
            index = index + 1;
        }
        proof {
            assert(self.spec_removed().take(index as int) =~= self.spec_removed());
        }
        let rendered_names = debug_string_list(&names);
        let mut text = String::from_str("Command { env: ");
        text.append(rendered_env);
        text.append(", unset: ");
        text.append(rendered_names.as_str());
        text.append(", argv: ");
        text.append(rendered_argv);
        text.append(" }");
        text
    }

    /// The redacted command text used in diagnostics and errors.
    ///
    /// The displayed argument vector goes to the policy's argument
    /// redactor, sensitive arguments as secret items, and the environment
    /// assignments to its environment redactor; the parts are then put
    /// together as `display_from_parts` states. The redacted parts depend on
    /// the opaque policy, so the contract states the shape and the removed
    /// names only. The values and flags handed over are those that
    /// `argv_redaction_values` states; the argument items themselves are
    /// opaque, so no contract ties the secret items to the flags.
    pub fn display_command(&self, policy: &RedactionPolicy) -> (text: String)
        ensures
            exists|env_text: Seq<char>, argv_text: Seq<char>| #[trigger] display_text(self, env_text, argv_text) == text@,
    {
        let values = self.argv_redaction_values();
        let mut items: Vec<qubit_redact::formats::argv::ArgvItem<'_>> = Vec::new();
        let mut index: usize = 0;
        while index < values.len()
            invariant
                index <= values@.len(),
            decreases values@.len() - index,
        {
            let (value, sensitive) = &values[index];
            if *sensitive {
                items.push(secret_argv_item(value.as_str()));
            } else {
                items.push(plain_argv_item(value.as_str()));
            }
            index = index + 1;
        }
        let rendered_argv = redacted_argv_text(policy, items, "<redaction incomplete>");
        let rendered_env = if self.envs.len() == 0 && self.removed_envs.len() == 0 {
            String::new()
        } else {
            let mut env_text: Vec<(String, String)> = Vec::new();
            let mut index: usize = 0;
            while index < self.envs.len()
                invariant
                    index <= self.envs@.len(),
                decreases self.envs@.len() - index,
            {
                env_text.push(
                    (decode_utf8_lossy(self.envs[index].0.as_slice()), decode_utf8_lossy(self.envs[index].1.as_slice())),
                );
                index = index + 1;
            }
            redacted_env_text(policy, env_text.as_slice(), "<redaction incomplete>")
        };
        let text = self.display_from_parts(rendered_env.as_str(), rendered_argv.as_str());
        proof {
            assert(display_text(self, rendered_env@, rendered_argv@) == text@);
        }
        text
    }
}

} // verus!
