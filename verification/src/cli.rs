//! The command line: its options as plain values, and its definition for `clap`.

use crate::text::optional_text;
use vstd::prelude::*;

verus! {

/// What the user asked for on the command line.
#[derive(Debug, Clone, PartialEq, Eq)]
pub struct Cli {
    /// Name of the project to create.
    pub project: String,
    /// Author name for the manifest.
    pub author: Option<String>,
    /// Target directory; the project name is used when there is none.
    pub directory: Option<String>,
    /// Path to a configuration file.
    pub config: Option<String>,
    /// Do not initialise a version-control repository.
    pub no_git: bool,
    /// Do not create a sample configuration file.
    pub no_sample_config: bool,
    /// Do not check that the generated project builds.
    pub skip_verify: bool,
    /// Do not register dependencies with the package manager.
    pub no_deps: bool,
}

/// Command-line options as mathematical values.
pub struct CliView {
    pub project: Seq<char>,
    pub author: Option<Seq<char>>,
    pub directory: Option<Seq<char>>,
    pub config: Option<Seq<char>>,
    pub no_git: bool,
    pub no_sample_config: bool,
    pub skip_verify: bool,
    pub no_deps: bool,
}

impl View for Cli {
    type V = CliView;

    open spec fn view(&self) -> CliView {
        CliView {
            project: self.project@,
            author: optional_text(self.author),
            directory: optional_text(self.directory),
            config: optional_text(self.config),
            no_git: self.no_git,
            no_sample_config: self.no_sample_config,
            skip_verify: self.skip_verify,
            no_deps: self.no_deps,
        }
    }
}

/// The command-line definition of `clap`, opaque to the proofs.
#[verifier::external_type_specification]
#[verifier::external_body]
pub struct ExCommand(clap::Command);

/// What `clap` made of the arguments, opaque to the proofs.
#[verifier::external_type_specification]
#[verifier::external_body]
pub struct ExArgMatches(clap::ArgMatches);

/// The arguments were not taken: they are wrong, or they ask for the help text or the
/// version.
#[derive(Debug, Clone, PartialEq, Eq)]
pub struct ParseError {
    /// What to show the user.
    pub message: String,
    /// The status to leave with: zero where the user asked for help or the version.
    pub exit_code: i32,
}

/// One argument of a command-line definition, as far as arguments can get into each
/// other's way.
pub struct ArgShape {
    pub id: Seq<char>,
    pub short: Option<char>,
    pub long: Option<Seq<char>>,
    pub required: bool,
    pub takes_value: bool,
}

/// The arguments that were added to a command-line definition, in the order in which they
/// were added.
pub uninterp spec fn command_args(command: clap::Command) -> Seq<ArgShape>;

/// The text found for each value argument that was given, by the argument's id.
pub uninterp spec fn matched_values(matches: clap::ArgMatches) -> Map<Seq<char>, Seq<char>>;

/// The state of each switch, by the switch's id.
pub uninterp spec fn matched_switches(matches: clap::ArgMatches) -> Map<Seq<char>, bool>;

/// What a definition with these arguments makes of a command line whose first word is the
/// program's name: the values and the switches found, or nothing where the command line is
/// not taken (also where it asks for the help text or the version).
pub uninterp spec fn accepted(
    arguments: Seq<ArgShape>,
    args: Seq<Seq<char>>,
) -> Option<(Map<Seq<char>, Seq<char>>, Map<Seq<char>, bool>)>;

/// The words of a command line.
pub open spec fn words(args: Seq<&str>) -> Seq<Seq<char>> {
    Seq::new(args.len(), |i: int| args[i]@)
}

/// The text of an optional literal.
pub open spec fn optional_literal(value: Option<&'static str>) -> Option<Seq<char>> {
    match value {
        Some(s) => Some(s@),
        None => None,
    }
}

/// An argument without a short and a long name is given by its position.
pub open spec fn is_positional(argument: ArgShape) -> bool {
    argument.short is None && argument.long is None
}

/// An argument that is in order by itself: it does not take the id or a name of the help
/// and version switches that every definition gets, its short name is not `-`, its long
/// name does not begin with `-`, and it takes a value if it is given by its position.
pub open spec fn is_sound_argument(argument: ArgShape) -> bool {
    &&& argument.id != "help"@
    &&& argument.id != "version"@
    &&& argument.short matches Some(c) ==> c != '-' && c != 'h' && c != 'V'
    &&& argument.long matches Some(l) ==> {
        &&& l != "help"@
        &&& l != "version"@
        &&& !(l.len() > 0 && l[0] == '-')
    }
    &&& is_positional(argument) ==> argument.takes_value
}

/// Two arguments that can stand in one definition, `first` before `second`: they differ
/// in their ids and in the names that they have, and if both are given by position and
/// the second is required, so is the first.
pub open spec fn can_stand_together(first: ArgShape, second: ArgShape) -> bool {
    &&& first.id != second.id
    &&& first.short is Some ==> first.short != second.short
    &&& first.long is Some ==> first.long != second.long
    &&& is_positional(first) && is_positional(second) && second.required ==> first.required
}

/// A definition whose arguments do not contradict each other.
pub open spec fn is_consistent(arguments: Seq<ArgShape>) -> bool {
    &&& forall|i: int| 0 <= i < arguments.len() ==> is_sound_argument(#[trigger] arguments[i])
    &&& forall|i: int, j: int|
        0 <= i < j < arguments.len() ==> can_stand_together(
            #[trigger] arguments[i],
            #[trigger] arguments[j],
        )
}

/// Calls `clap::Command::new` and sets the texts of the definition with `about`,
/// `version` and `after_help`. The definition so made has no arguments of its own yet.
#[verifier::external_body]
fn new_command(
    name: &'static str,
    about: &'static str,
    version: &'static str,
    after_help: &'static str,
) -> (command: clap::Command)
    ensures
        command_args(command) == Seq::<ArgShape>::empty(),
{
    clap::Command::new(name).about(about).version(version).after_help(after_help)
}

/// Calls `clap::Command::arg` with an argument that takes one value
/// (`clap::ArgAction::Set`), built with `clap::Arg::new` from the id, the names, the
/// placeholder and the help text. The argument is added behind those already there.
/// `clap` refuses `-` as a short name.
#[verifier::external_body]
fn with_value_argument(
    command: clap::Command,
    id: &'static str,
    short: Option<char>,
    long: Option<&'static str>,
    value_name: &'static str,
    help: &'static str,
    required: bool,
) -> (extended: clap::Command)
    requires
        short != Some('-'),
    ensures
        command_args(extended) == command_args(command).push(
            ArgShape {
                id: id@,
                short,
                long: optional_literal(long),
                required,
                takes_value: true,
            },
        ),
{
    let argument = clap::Arg::new(id).short(short).long(long).value_name(value_name).help(help);
    command.arg(argument.required(required).action(clap::ArgAction::Set))
}

/// Calls `clap::Command::arg` with a switch (`clap::ArgAction::SetTrue`) that has a long
/// name only, built with `clap::Arg::new`. The switch is added behind the arguments
/// already there.
#[verifier::external_body]
fn with_switch(
    command: clap::Command,
    id: &'static str,
    long: &'static str,
    help: &'static str,
) -> (extended: clap::Command)
    ensures
        command_args(extended) == command_args(command).push(
            ArgShape { id: id@, short: None, long: Some(long@), required: false, takes_value: false },
        ),
{
    command.arg(clap::Arg::new(id).long(long).help(help).action(clap::ArgAction::SetTrue))
}

/// Calls `clap::Command::try_get_matches_from`; the first of `args` is taken as the name
/// of the program. Whether the command line is taken, and what is found in it, depends on
/// the arguments of the definition and on the words alone. An error of `clap` comes back
/// as its rendered text and the exit status that `clap` gives it; nothing is claimed of
/// either. In a debug build `clap` checks the definition first and panics if its arguments
/// contradict each other, so this asks for a consistent definition.
#[verifier::external_body]
fn parse_arguments(command: clap::Command, args: &[&str]) -> (parsed: Result<
    clap::ArgMatches,
    ParseError,
>)
    requires
        is_consistent(command_args(command)),
    ensures
        parsed matches Ok(matches) ==> accepted(command_args(command), words(args@)) == Some(
            (matched_values(matches), matched_switches(matches)),
        ),
        parsed is Err ==> accepted(command_args(command), words(args@)) is None,
{
    command.try_get_matches_from(args).map_err(
        |e| ParseError { message: e.to_string(), exit_code: e.exit_code() },
    )
}

/// Calls `clap::ArgMatches::try_get_one` for a text value: the first value given for the
/// argument `id`, or nothing where none was given or `id` is no text argument.
#[verifier::external_body]
fn matched_value(matches: &clap::ArgMatches, id: &str) -> (value: Option<String>)
    ensures
        value is Some <==> matched_values(*matches).contains_key(id@),
        value matches Some(text) ==> text@ == matched_values(*matches)[id@],
{
    matches.try_get_one::<String>(id).ok().flatten().cloned()
}

/// Calls `clap::ArgMatches::try_get_one` for a switch: whether the switch `id` was given,
/// or nothing where `id` is no switch.
#[verifier::external_body]
fn matched_switch(matches: &clap::ArgMatches, id: &str) -> (state: Option<bool>)
    ensures
        state is Some <==> matched_switches(*matches).contains_key(id@),
        state matches Some(raised) ==> raised == matched_switches(*matches)[id@],
{
    matches.try_get_one::<bool>(id).ok().flatten().copied()
}

/// The arguments of the command line, in the order of the definition: the project name by
/// position, three options that take a value, four switches.
pub open spec fn scaffold_arguments() -> Seq<ArgShape> {
    seq![
        ArgShape { id: "project"@, short: None, long: None, required: true, takes_value: true },
        ArgShape {
            id: "author"@,
            short: Some('a'),
            long: Some("author"@),
            required: false,
            takes_value: true,
        },
        ArgShape {
            id: "directory"@,
            short: Some('d'),
            long: Some("directory"@),
            required: false,
            takes_value: true,
        },
        ArgShape {
            id: "config"@,
            short: Some('c'),
            long: Some("config"@),
            required: false,
            takes_value: true,
        },
        ArgShape {
            id: "no_git"@,
            short: None,
            long: Some("no-git"@),
            required: false,
            takes_value: false,
        },
        ArgShape {
            id: "no_sample_config"@,
            short: None,
            long: Some("no-sample-config"@),
            required: false,
            takes_value: false,
        },
        ArgShape {
            id: "skip_verify"@,
            short: None,
            long: Some("no-verify"@),
            required: false,
            takes_value: false,
        },
        ArgShape {
            id: "no_deps"@,
            short: None,
            long: Some("no-deps"@),
            required: false,
            takes_value: false,
        },
    ]
}

/// The value found under `id`, if there is one.
pub open spec fn value_of(values: Map<Seq<char>, Seq<char>>, id: Seq<char>) -> Option<Seq<char>> {
    if values.contains_key(id) {
        Some(values[id])
    } else {
        None
    }
}

/// Whether the switch `id` was given.
pub open spec fn is_raised(switches: Map<Seq<char>, bool>, id: Seq<char>) -> bool {
    switches.contains_key(id) && switches[id]
}

/// The options that matched values and switches amount to; none without a project name.
pub open spec fn options_of(
    values: Map<Seq<char>, Seq<char>>,
    switches: Map<Seq<char>, bool>,
) -> Option<CliView> {
    if values.contains_key("project"@) {
        Some(
            CliView {
                project: values["project"@],
                author: value_of(values, "author"@),
                directory: value_of(values, "directory"@),
                config: value_of(values, "config"@),
                no_git: is_raised(switches, "no_git"@),
                no_sample_config: is_raised(switches, "no_sample_config"@),
                skip_verify: is_raised(switches, "skip_verify"@),
                no_deps: is_raised(switches, "no_deps"@),
            },
        )
    } else {
        None
    }
}

/// The options that a command line amounts to, where it is taken.
pub open spec fn parsed_options(args: Seq<Seq<char>>) -> Option<CliView> {
    match accepted(scaffold_arguments(), args) {
        Some(found) => options_of(found.0, found.1),
        None => None,
    }
}

/// What is said when the project name is missing.
pub open spec fn missing_project_message() -> Seq<char> {
    "error: the following required arguments were not provided:\n  <PROJECT>"@
}

fn raised(matches: &clap::ArgMatches, id: &str) -> (state: bool)
    ensures
        state == is_raised(matched_switches(*matches), id@),
{
    match matched_switch(matches, id) {
        Some(state) => state,
        None => false,
    }
}

impl Cli {
    /// The definition of the command line.
    pub fn command() -> (command: clap::Command)
        ensures
            command_args(command) == scaffold_arguments(),
            is_consistent(command_args(command)),
    {
        let command = new_command(
            "scaffold",
            "A Rust CLI project scaffolding tool that generates production-ready CLI applications",
            "0.1.0",
            "Logs are written to: ~/.local/share/scaffold/logs/scaffold.log\n\nThis tool generates complete Rust CLI projects with best practices including:\n- Proper error handling with eyre\n- Structured logging with env_logger\n- Configuration management with serde_yaml\n- Modern CLI parsing with clap\n- Git version integration",
        );
        let command = with_value_argument(
            command,
            "project",
            None,
            None,
            "PROJECT",
            "Name of the project to create",
            true,
        );
        let command = with_value_argument(
            command,
            "author",
            Some('a'),
            Some("author"),
            "AUTHOR",
            "Author name for Cargo.toml",
            false,
        );
        let command = with_value_argument(
            command,
            "directory",
            Some('d'),
            Some("directory"),
            "DIRECTORY",
            "Target directory (default: ./<project-name>)",
            false,
        );
        let command = with_value_argument(
            command,
            "config",
            Some('c'),
            Some("config"),
            "CONFIG",
            "Path to config file",
            false,
        );
        let command = with_switch(command, "no_git", "no-git", "Don't initialize git repository");
        let command = with_switch(
            command,
            "no_sample_config",
            "no-sample-config",
            "Don't create sample config file",
        );
        let command = with_switch(
            command,
            "skip_verify",
            "no-verify",
            "Don't verify that the generated project builds (much faster)",
        );
        let command = with_switch(
            command,
            "no_deps",
            "no-deps",
            "Don't add dependencies with cargo add (much faster, generates basic Cargo.toml)",
        );
        proof {
            assert(command_args(command) =~= scaffold_arguments());
            scaffold_arguments_are_consistent();
        }
        command
    }

    /// Reads the options out of what `clap` made of the arguments.
    pub fn from_arg_matches(matches: &clap::ArgMatches) -> (parsed: Result<Cli, ParseError>)
        ensures
            match parsed {
                Ok(cli) => options_of(matched_values(*matches), matched_switches(*matches))
                    == Some(cli@),
                Err(error) => {
                    &&& options_of(matched_values(*matches), matched_switches(*matches)) is None
                    &&& error.message@ == missing_project_message()
                    &&& error.exit_code == 2
                },
            },
    {
        let project = match matched_value(matches, "project") {
            Some(project) => project,
            None => {
                return Err(
                    ParseError {
                        message: "error: the following required arguments were not provided:\n  <PROJECT>".to_owned(),
                        exit_code: 2,
                    },
                );
            },
        };
        Ok(
            Cli {
                project,
                author: matched_value(matches, "author"),
                directory: matched_value(matches, "directory"),
                config: matched_value(matches, "config"),
                no_git: raised(matches, "no_git"),
                no_sample_config: raised(matches, "no_sample_config"),
                skip_verify: raised(matches, "skip_verify"),
                no_deps: raised(matches, "no_deps"),
            },
        )
    }

    /// Parses a command line; the first of `args` is the name of the program. Whether the
    /// command line is taken, and what is found in it, is for `clap` to say. Where it is
    /// taken, the options are those that `from_arg_matches` reads out of what was found.
    pub fn try_parse_from(args: &[&str]) -> (parsed: Result<Cli, ParseError>)
        ensures
            parsed matches Ok(cli) ==> parsed_options(words(args@)) == Some(cli@),
            parsed is Err ==> parsed_options(words(args@)) is None,
    {
        match parse_arguments(Cli::command(), args) {
            Ok(matches) => Cli::from_arg_matches(&matches),
            Err(error) => Err(error),
        }
    }
}

/// The arguments of the command line do not contradict each other.
pub proof fn scaffold_arguments_are_consistent()
    ensures
        is_consistent(scaffold_arguments()),
{
    reveal_strlit("help");
    reveal_strlit("version");
    reveal_strlit("project");
    reveal_strlit("author");
    reveal_strlit("directory");
    reveal_strlit("config");
    reveal_strlit("no_git");
    reveal_strlit("no_sample_config");
    reveal_strlit("skip_verify");
    reveal_strlit("no_deps");
    reveal_strlit("no-git");
    reveal_strlit("no-sample-config");
    reveal_strlit("no-verify");
    reveal_strlit("no-deps");
    let arguments = scaffold_arguments();
    assert forall|i: int| 0 <= i < arguments.len() implies is_sound_argument(
        #[trigger] arguments[i],
    ) by {
        let a = arguments[i];
        assert(a.id.len() != 4 || a.id[0] != 'h');
        assert(a.id.len() != 7 || a.id[0] != 'v');
        if a.long is Some {
            let l = a.long.unwrap();
            assert(l.len() != 4 || l[0] != 'h');
            assert(l.len() != 7 || l[0] != 'v');
        }
    }
    assert forall|i: int, j: int| 0 <= i < j < arguments.len() implies can_stand_together(
        #[trigger] arguments[i],
        #[trigger] arguments[j],
    ) by {
        let a = arguments[i];
        let b = arguments[j];
        assert(a.id.len() != b.id.len() || a.id[0] != b.id[0] || a.id[3] != b.id[3]);
        if a.long is Some && b.long is Some {
            let x = a.long.unwrap();
            let y = b.long.unwrap();
            assert(x.len() != y.len() || x[0] != y[0] || x[3] != y[3]);
        }
    }
}

} // verus!
