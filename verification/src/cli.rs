//! The command line of `tars`.
//!
//! Three options are global: `--config`, `--verbose` and `--log-format` may stand before the
//! command and behind it. Whatever else stands behind the command is the command's own.

use vstd::prelude::*;

use crate::text::{chars_of, same_text, text_between, texts};

verus! {

// ---------------------------------------------------------------------------
// Log formats
// ---------------------------------------------------------------------------

/// The log format that the command line asks for.
#[derive(Clone, Copy, Debug, PartialEq, Eq, Structural)]
pub enum LogFormat {
    Pretty,
    Json,
}

/// The log format that telemetry writes.
#[derive(Clone, Copy, Debug, PartialEq, Eq, Structural)]
pub enum TelemetryFormat {
    Pretty,
    Json,
}

impl From<LogFormat> for TelemetryFormat {
    fn from(format: LogFormat) -> (out: TelemetryFormat) {
        match format {
            LogFormat::Pretty => TelemetryFormat::Pretty,
            LogFormat::Json => TelemetryFormat::Json,
        }
    }
}

impl vstd::std_specs::convert::FromSpecImpl<LogFormat> for TelemetryFormat {
    open spec fn obeys_from_spec() -> bool {
        true
    }

    open spec fn from_spec(format: LogFormat) -> TelemetryFormat {
        match format {
            LogFormat::Pretty => TelemetryFormat::Pretty,
            LogFormat::Json => TelemetryFormat::Json,
        }
    }
}

/// The format that telemetry writes in: the one that the command line asks for, else the one it
/// was set up with.
pub fn telemetry_format(flag: Option<LogFormat>, configured: TelemetryFormat) -> (out:
    TelemetryFormat)
    ensures
        out == match flag {
            Some(LogFormat::Pretty) => TelemetryFormat::Pretty,
            Some(LogFormat::Json) => TelemetryFormat::Json,
            None => configured,
        },
{
    match flag {
        Some(format) => TelemetryFormat::from(format),
        None => configured,
    }
}

/// How much is logged.
#[derive(Clone, Copy, Debug, PartialEq, Eq, Structural)]
pub enum Verbosity {
    Default,
    Info,
    Debug,
    Trace,
}

/// How much is logged for this many `-v`.
pub fn verbosity(count: u8) -> (out: Verbosity)
    ensures
        out == if count == 0 {
            Verbosity::Default
        } else if count == 1 {
            Verbosity::Info
        } else if count == 2 {
            Verbosity::Debug
        } else {
            Verbosity::Trace
        },
{
    match count {
        0 => Verbosity::Default,
        1 => Verbosity::Info,
        2 => Verbosity::Debug,
        _ => Verbosity::Trace,
    }
}

/// The log format with this name.
pub open spec fn format_named(name: Seq<char>) -> Option<LogFormat> {
    if name == "pretty"@ {
        Some(LogFormat::Pretty)
    } else if name == "json"@ {
        Some(LogFormat::Json)
    } else {
        None
    }
}

fn find_format(name: &str) -> (format: Option<LogFormat>)
    ensures
        format == format_named(name@),
{
    if same_text(name, "pretty") {
        Some(LogFormat::Pretty)
    } else if same_text(name, "json") {
        Some(LogFormat::Json)
    } else {
        None
    }
}

// ---------------------------------------------------------------------------
// Commands
// ---------------------------------------------------------------------------

/// What `tars` is to do.
#[derive(Clone, Copy, Debug, PartialEq, Eq, Structural)]
pub enum Command {
    /// Send a single prompt to a provider and stream the answer.
    Run,
    /// Turn a goal into a plan.
    Plan,
    /// Drive a task through all of its steps.
    RunTask,
    /// Check that a provider works.
    Probe,
    /// Measure a provider.
    Bench,
    /// Inspect the log of agent decisions.
    Trajectory,
    /// Write a first config file.
    Init,
    /// Inspect the store of pipeline events.
    Events,
}

impl Command {
    /// The name of the command.
    pub open spec fn spelling(self) -> Seq<char> {
        match self {
            Command::Run => "run"@,
            Command::Plan => "plan"@,
            Command::RunTask => "run-task"@,
            Command::Probe => "probe"@,
            Command::Bench => "bench"@,
            Command::Trajectory => "trajectory"@,
            Command::Init => "init"@,
            Command::Events => "events"@,
        }
    }

    /// The name of the command.
    pub fn name(self) -> (name: &'static str)
        ensures
            name@ == self.spelling(),
    {
        match self {
            Command::Run => "run",
            Command::Plan => "plan",
            Command::RunTask => "run-task",
            Command::Probe => "probe",
            Command::Bench => "bench",
            Command::Trajectory => "trajectory",
            Command::Init => "init",
            Command::Events => "events",
        }
    }
}

impl Command {
    /// Whether the command has commands of its own, `list` and `show`.
    pub open spec fn nests(self) -> bool {
        self is Trajectory || self is Events
    }

    fn has_commands(self) -> (answer: bool)
        ensures
            answer == self.nests(),
    {
        match self {
            Command::Trajectory => true,
            Command::Events => true,
            _ => false,
        }
    }
}

/// The command with this name.
pub open spec fn command_named(name: Seq<char>) -> Option<Command> {
    if name == "run"@ {
        Some(Command::Run)
    } else if name == "plan"@ {
        Some(Command::Plan)
    } else if name == "run-task"@ {
        Some(Command::RunTask)
    } else if name == "probe"@ {
        Some(Command::Probe)
    } else if name == "bench"@ {
        Some(Command::Bench)
    } else if name == "trajectory"@ {
        Some(Command::Trajectory)
    } else if name == "init"@ {
        Some(Command::Init)
    } else if name == "events"@ {
        Some(Command::Events)
    } else {
        None
    }
}

fn find_command(name: &str) -> (command: Option<Command>)
    ensures
        command == command_named(name@),
{
    if same_text(name, "run") {
        Some(Command::Run)
    } else if same_text(name, "plan") {
        Some(Command::Plan)
    } else if same_text(name, "run-task") {
        Some(Command::RunTask)
    } else if same_text(name, "probe") {
        Some(Command::Probe)
    } else if same_text(name, "bench") {
        Some(Command::Bench)
    } else if same_text(name, "trajectory") {
        Some(Command::Trajectory)
    } else if same_text(name, "init") {
        Some(Command::Init)
    } else if same_text(name, "events") {
        Some(Command::Events)
    } else {
        None
    }
}

/// A command is found under its own name, and under no other.
pub proof fn law_command_names(command: Command, name: Seq<char>)
    ensures
        command_named(command.spelling()) == Some(command),
        command_named(name) == Some(command) ==> name == command.spelling(),
{
    reveal_strlit("run");
    reveal_strlit("plan");
    reveal_strlit("run-task");
    reveal_strlit("probe");
    reveal_strlit("bench");
    reveal_strlit("trajectory");
    reveal_strlit("init");
    reveal_strlit("events");
    assert("run"@.len() == 3 && "plan"@.len() == 4 && "run-task"@.len() == 8 && "probe"@.len() == 5
        && "bench"@.len() == 5 && "trajectory"@.len() == 10 && "init"@.len() == 4
        && "events"@.len() == 6);
    assert("plan"@[0] != "init"@[0]);
    assert("probe"@[0] != "bench"@[0]);
}

// ---------------------------------------------------------------------------
// Options
// ---------------------------------------------------------------------------

/// Why a command line cannot be followed.
#[derive(Debug, PartialEq)]
pub enum CliError {
    /// It asks for help.
    Help,
    /// It asks for the version.
    Version,
    /// An option needs a value and has none.
    MissingValue(String),
    /// An option is given twice in one place.
    Repeated(String),
    /// The config path is empty.
    EmptyConfig,
    /// There is no such log format.
    UnknownFormat(String),
    /// There is no such option.
    UnknownOption(String),
    /// There is no such command.
    UnknownCommand(String),
    /// There is no command at all.
    NoCommand,
}

/// What a [`CliError`] says.
#[verifier::ext_equal]
pub enum CliErrorView {
    Help,
    Version,
    MissingValue(Seq<char>),
    Repeated(Seq<char>),
    EmptyConfig,
    UnknownFormat(Seq<char>),
    UnknownOption(Seq<char>),
    UnknownCommand(Seq<char>),
    NoCommand,
}

impl View for CliError {
    type V = CliErrorView;

    open spec fn view(&self) -> CliErrorView {
        match *self {
            CliError::Help => CliErrorView::Help,
            CliError::Version => CliErrorView::Version,
            CliError::MissingValue(s) => CliErrorView::MissingValue(s@),
            CliError::Repeated(s) => CliErrorView::Repeated(s@),
            CliError::EmptyConfig => CliErrorView::EmptyConfig,
            CliError::UnknownFormat(s) => CliErrorView::UnknownFormat(s@),
            CliError::UnknownOption(s) => CliErrorView::UnknownOption(s@),
            CliError::UnknownCommand(s) => CliErrorView::UnknownCommand(s@),
            CliError::NoCommand => CliErrorView::NoCommand,
        }
    }
}

/// An argument that begins with a hyphen, and what it asks for.
enum Flag {
    /// So many `-v`.
    Verbose(usize),
    /// So many `-v`, and `--config`, with its value if that is part of the argument.
    Config(usize, Option<String>),
    /// `--log-format`, with its value if that is part of the argument.
    Format(Option<String>),
    Help,
    Version,
    /// Nothing that is known here.
    Other,
}

/// What an argument that begins with a hyphen asks for.
pub enum FlagView {
    Verbose(nat),
    Config(nat, Option<Seq<char>>),
    Format(Option<Seq<char>>),
    Help,
    Version,
    Other,
}

impl View for Flag {
    type V = FlagView;

    closed spec fn view(&self) -> FlagView {
        match *self {
            Flag::Verbose(n) => FlagView::Verbose(n as nat),
            Flag::Config(n, value) => FlagView::Config(n as nat, optional_view(value)),
            Flag::Format(value) => FlagView::Format(optional_view(value)),
            Flag::Help => FlagView::Help,
            Flag::Version => FlagView::Version,
            Flag::Other => FlagView::Other,
        }
    }
}

/// What an optional string holds.
pub open spec fn optional_view(text: Option<String>) -> Option<Seq<char>> {
    match text {
        Some(s) => Some(s@),
        None => None,
    }
}

/// Whether an argument is an option. A hyphen alone is none.
pub open spec fn is_option(arg: Seq<char>) -> bool {
    arg.len() >= 2 && arg[0] == '-'
}

/// What the letters behind a single hyphen ask for, `n` times `-v` having been read. The value of
/// `-c` may follow it directly, with or without an equals sign.
pub open spec fn short_flags(letters: Seq<char>, n: nat) -> FlagView
    decreases letters.len(),
{
    if letters.len() == 0 {
        FlagView::Verbose(n)
    } else if letters[0] == 'v' {
        short_flags(letters.drop_first(), n + 1)
    } else if letters[0] == 'c' {
        let value = letters.drop_first();
        FlagView::Config(
            n,
            if value.len() == 0 {
                None
            } else if value[0] == '=' {
                Some(value.drop_first())
            } else {
                Some(value)
            },
        )
    } else if letters[0] == 'h' {
        FlagView::Help
    } else if letters[0] == 'V' {
        FlagView::Version
    } else {
        FlagView::Other
    }
}

/// Whether an argument begins in a certain way.
pub open spec fn begins(arg: Seq<char>, start: Seq<char>) -> bool {
    start.len() <= arg.len() && arg.take(start.len() as int) == start
}

/// What an option asks for.
pub open spec fn flag_of(arg: Seq<char>) -> FlagView {
    if arg == "--verbose"@ {
        FlagView::Verbose(1)
    } else if arg == "--config"@ {
        FlagView::Config(0, None)
    } else if begins(arg, "--config="@) {
        FlagView::Config(0, Some(arg.skip("--config="@.len() as int)))
    } else if arg == "--log-format"@ {
        FlagView::Format(None)
    } else if begins(arg, "--log-format="@) {
        FlagView::Format(Some(arg.skip("--log-format="@.len() as int)))
    } else if arg == "--help"@ {
        FlagView::Help
    } else if arg == "--version"@ {
        FlagView::Version
    } else if is_option(arg) && arg[1] != '-' {
        short_flags(arg.drop_first(), 0)
    } else {
        FlagView::Other
    }
}

/// What follows a certain beginning.
fn after(arg: &str, start: &str) -> (rest: Option<String>)
    ensures
        match rest {
            Some(s) => begins(arg@, start@) && s@ == arg@.skip(start@.len() as int),
            None => !begins(arg@, start@),
        },
{
    let a = chars_of(arg);
    let b = chars_of(start);
    let n: usize = b.len();
    if n > a.len() {
        return None;
    }
    for i in 0..n
        invariant
            a@ == arg@,
            b@ == start@,
            n == b@.len(),
            n <= a@.len(),
            forall|j: int| 0 <= j < i ==> a@[j] == b@[j],
    {
        if a[i] != b[i] {
            assert(arg@.take(n as int)[i as int] != start@[i as int]);
            return None;
        }
    }
    assert(arg@.take(n as int) =~= start@);
    assert(a@.subrange(n as int, a@.len() as int) =~= arg@.skip(n as int));
    Some(text_between(&a, n, a.len()))
}

fn read_short_flags(arg: &str) -> (flag: Flag)
    requires
        is_option(arg@),
    ensures
        flag@ == short_flags(arg@.drop_first(), 0),
{
    let chars = chars_of(arg);
    let n: usize = chars.len();
    let mut i: usize = 1;
    assert(arg@.skip(1) =~= arg@.drop_first());
    while i < n && chars[i] == 'v'
        invariant
            chars@ == arg@,
            n == chars@.len(),
            1 <= i <= n,
            short_flags(arg@.drop_first(), 0) == short_flags(arg@.skip(i as int), (i - 1) as nat),
        decreases n - i,
    {
        assert(arg@.skip(i as int).drop_first() =~= arg@.skip(i + 1));
        i = i + 1;
    }
    let ghost letters = arg@.skip(i as int);
    if i == n {
        return Flag::Verbose(i - 1);
    }
    if chars[i] == 'c' {
        if i + 1 == n {
            Flag::Config(i - 1, None)
        } else if chars[i + 1] == '=' {
            assert(chars@.subrange(i + 2, n as int) =~= letters.drop_first().drop_first());
            Flag::Config(i - 1, Some(text_between(&chars, i + 2, n)))
        } else {
            assert(chars@.subrange(i + 1, n as int) =~= letters.drop_first());
            Flag::Config(i - 1, Some(text_between(&chars, i + 1, n)))
        }
    } else if chars[i] == 'h' {
        Flag::Help
    } else if chars[i] == 'V' {
        Flag::Version
    } else {
        Flag::Other
    }
}

fn looks_like_option(arg: &str) -> (answer: bool)
    ensures
        answer == is_option(arg@),
{
    let chars = chars_of(arg);
    chars.len() >= 2 && chars[0] == '-'
}

fn read_flag(arg: &str) -> (flag: Flag)
    ensures
        flag@ == flag_of(arg@),
{
    if same_text(arg, "--verbose") {
        return Flag::Verbose(1);
    }
    if same_text(arg, "--config") {
        return Flag::Config(0, None);
    }
    if let Some(value) = after(arg, "--config=") {
        return Flag::Config(0, Some(value));
    }
    if same_text(arg, "--log-format") {
        return Flag::Format(None);
    }
    if let Some(value) = after(arg, "--log-format=") {
        return Flag::Format(Some(value));
    }
    if same_text(arg, "--help") {
        return Flag::Help;
    }
    if same_text(arg, "--version") {
        return Flag::Version;
    }
    if looks_like_option(arg) {
        let chars = chars_of(arg);
        if chars[1] != '-' {
            return read_short_flags(arg);
        }
    }
    Flag::Other
}

// ---------------------------------------------------------------------------
// The global options
// ---------------------------------------------------------------------------

/// The global options that have been read.
struct Globals {
    config: Option<String>,
    verbose: u8,
    log_format: Option<LogFormat>,
}

/// What the global options say.
#[verifier::ext_equal]
pub struct GlobalsView {
    pub config: Option<Seq<char>>,
    pub verbose: u8,
    pub log_format: Option<LogFormat>,
}

impl View for Globals {
    type V = GlobalsView;

    closed spec fn view(&self) -> GlobalsView {
        GlobalsView {
            config: optional_view(self.config),
            verbose: self.verbose,
            log_format: self.log_format,
        }
    }
}

impl GlobalsView {
    /// No option has been given.
    pub open spec fn none() -> GlobalsView {
        GlobalsView { config: None, verbose: 0, log_format: None }
    }

    /// After `n` more `-v`; 255 of them count as any more do.
    pub open spec fn louder(self, n: nat) -> GlobalsView {
        GlobalsView {
            verbose: if self.verbose + n > 255 {
                255
            } else {
                (self.verbose + n) as u8
            },
            ..self
        }
    }

    /// After `--config` with this value.
    pub open spec fn with_config(self, value: Seq<char>) -> Result<GlobalsView, CliErrorView> {
        if self.config is Some {
            Err(CliErrorView::Repeated("--config"@))
        } else if value.len() == 0 {
            Err(CliErrorView::EmptyConfig)
        } else {
            Ok(GlobalsView { config: Some(value), ..self })
        }
    }

    /// After `--log-format` with this value.
    pub open spec fn with_format(self, value: Seq<char>) -> Result<GlobalsView, CliErrorView> {
        if self.log_format is Some {
            Err(CliErrorView::Repeated("--log-format"@))
        } else {
            match format_named(value) {
                Some(format) => Ok(GlobalsView { log_format: Some(format), ..self }),
                None => Err(CliErrorView::UnknownFormat(value)),
            }
        }
    }

    /// These options, completed by those that stand before the command.
    pub open spec fn over(self, outer: GlobalsView) -> GlobalsView {
        GlobalsView {
            config: if self.config is Some {
                self.config
            } else {
                outer.config
            },
            verbose: if self.verbose > 0 {
                self.verbose
            } else {
                outer.verbose
            },
            log_format: if self.log_format is Some {
                self.log_format
            } else {
                outer.log_format
            },
        }
    }
}

/// The value of an option: the one that is part of the argument, else the next argument, which must
/// be there and be no option. With the value goes the number of arguments that option and value
/// take up.
pub open spec fn option_value(
    args: Seq<Seq<char>>,
    at: int,
    attached: Option<Seq<char>>,
    option: Seq<char>,
) -> Result<(Seq<char>, int), CliErrorView> {
    match attached {
        Some(value) => Ok((value, 1)),
        None => if at + 1 < args.len() && !is_option(args[at + 1]) {
            Ok((args[at + 1], 2))
        } else {
            Err(CliErrorView::MissingValue(option))
        },
    }
}

/// What the global option at `at` comes to: the options after it, and how many arguments it takes
/// up. An argument that is no global option takes up none.
pub open spec fn global_at(args: Seq<Seq<char>>, at: int, globals: GlobalsView) -> Result<
    (GlobalsView, int),
    CliErrorView,
> {
    match flag_of(args[at]) {
        FlagView::Verbose(n) => Ok((globals.louder(n), 1)),
        FlagView::Config(n, attached) => match option_value(args, at, attached, "--config"@) {
            Err(e) => Err(e),
            Ok((value, taken)) => match globals.louder(n).with_config(value) {
                Err(e) => Err(e),
                Ok(after) => Ok((after, taken)),
            },
        },
        FlagView::Format(attached) => match option_value(args, at, attached, "--log-format"@) {
            Err(e) => Err(e),
            Ok((value, taken)) => match globals.with_format(value) {
                Err(e) => Err(e),
                Ok(after) => Ok((after, taken)),
            },
        },
        _ => Ok((globals, 0)),
    }
}

/// The arguments of a slice.
pub open spec fn words(args: Seq<&str>) -> Seq<Seq<char>> {
    args.map_values(|s: &str| s@)
}

impl Globals {
    fn none() -> (globals: Globals)
        ensures
            globals@ == GlobalsView::none(),
    {
        Globals { config: None, verbose: 0, log_format: None }
    }

    fn louder(&mut self, n: usize)
        ensures
            final(self)@ == old(self)@.louder(n as nat),
    {
        let room: usize = (255 - self.verbose) as usize;
        if n > room {
            self.verbose = 255;
        } else {
            self.verbose = self.verbose + n as u8;
        }
    }

    fn set_config(&mut self, value: String) -> (outcome: Result<(), CliError>)
        ensures
            match outcome {
                Ok(_) => old(self)@.with_config(value@) == Ok::<GlobalsView, CliErrorView>(
                    final(self)@,
                ),
                Err(e) => old(self)@.with_config(value@) == Err::<GlobalsView, CliErrorView>(e@),
            },
    {
        if self.config.is_some() {
            return Err(CliError::Repeated("--config".to_string()));
        }
        if value.as_str().is_empty() {
            return Err(CliError::EmptyConfig);
        }
        self.config = Some(value);
        Ok(())
    }

    fn set_format(&mut self, value: String) -> (outcome: Result<(), CliError>)
        ensures
            match outcome {
                Ok(_) => old(self)@.with_format(value@) == Ok::<GlobalsView, CliErrorView>(
                    final(self)@,
                ),
                Err(e) => old(self)@.with_format(value@) == Err::<GlobalsView, CliErrorView>(e@),
            },
    {
        if self.log_format.is_some() {
            return Err(CliError::Repeated("--log-format".to_string()));
        }
        match find_format(value.as_str()) {
            Some(format) => {
                self.log_format = Some(format);
                Ok(())
            },
            None => Err(CliError::UnknownFormat(value)),
        }
    }

    /// Takes in the global option at `at`, and says how many arguments it takes up.
    fn take_in(&mut self, args: &[&str], at: usize) -> (outcome: Result<usize, CliError>)
        requires
            at < args@.len(),
        ensures
            match outcome {
                Ok(taken) => global_at(words(args@), at as int, old(self)@) == Ok::<
                    (GlobalsView, int),
                    CliErrorView,
                >((final(self)@, taken as int)) && at + taken <= args@.len(),
                Err(e) => global_at(words(args@), at as int, old(self)@) == Err::<
                    (GlobalsView, int),
                    CliErrorView,
                >(e@),
            },
    {
        assert(words(args@)[at as int] == args@[at as int]@);
        match read_flag(args[at]) {
            Flag::Verbose(n) => {
                self.louder(n);
                Ok(1)
            },
            Flag::Config(n, attached) => match read_value(args, at, attached, "--config") {
                Err(e) => Err(e),
                Ok((value, taken)) => {
                    self.louder(n);
                    match self.set_config(value) {
                        Err(e) => Err(e),
                        Ok(_) => Ok(taken),
                    }
                },
            },
            Flag::Format(attached) => match read_value(args, at, attached, "--log-format") {
                Err(e) => Err(e),
                Ok((value, taken)) => match self.set_format(value) {
                    Err(e) => Err(e),
                    Ok(_) => Ok(taken),
                },
            },
            _ => Ok(0),
        }
    }

    fn over(self, outer: Globals) -> (out: Globals)
        ensures
            out@ == self@.over(outer@),
    {
        Globals {
            config: if self.config.is_some() {
                self.config
            } else {
                outer.config
            },
            verbose: if self.verbose > 0 {
                self.verbose
            } else {
                outer.verbose
            },
            log_format: if self.log_format.is_some() {
                self.log_format
            } else {
                outer.log_format
            },
        }
    }
}

fn read_value(args: &[&str], at: usize, attached: Option<String>, option: &str) -> (outcome: Result<
    (String, usize),
    CliError,
>)
    requires
        at < args@.len(),
    ensures
        match outcome {
            Ok((value, taken)) => option_value(
                words(args@),
                at as int,
                optional_view(attached),
                option@,
            ) == Ok::<(Seq<char>, int), CliErrorView>((value@, taken as int)) && 1 <= taken
                && at + taken <= args@.len(),
            Err(e) => option_value(words(args@), at as int, optional_view(attached), option@)
                == Err::<(Seq<char>, int), CliErrorView>(e@),
        },
{
    match attached {
        Some(value) => Ok((value, 1)),
        None => {
            if at < args.len() - 1 {
                assert(words(args@)[at + 1] == args@[at + 1]@);
                if !looks_like_option(args[at + 1]) {
                    return Ok((args[at + 1].to_string(), 2));
                }
            }
            Err(CliError::MissingValue(option.to_string()))
        },
    }
}

// ---------------------------------------------------------------------------
// The command line
// ---------------------------------------------------------------------------

/// What a question for help comes to that may name a command at `at`.
pub open spec fn help_about(args: Seq<Seq<char>>, at: int) -> Result<
    (GlobalsView, Command, int),
    CliErrorView,
> {
    if at >= args.len() || command_named(args[at]) is Some || args[at] == "help"@ {
        Err(CliErrorView::Help)
    } else {
        Err(CliErrorView::UnknownCommand(args[at]))
    }
}

/// What stands from `at` on up to the command: the global options, the command, and where its own
/// arguments begin.
pub open spec fn to_command(args: Seq<Seq<char>>, at: int, globals: GlobalsView) -> Result<
    (GlobalsView, Command, int),
    CliErrorView,
>
    decreases args.len() - at,
{
    if at >= args.len() {
        Err(CliErrorView::NoCommand)
    } else if !is_option(args[at]) {
        match command_named(args[at]) {
            Some(command) => Ok((globals, command, at + 1)),
            None => if args[at] == "help"@ {
                help_about(args, at + 1)
            } else {
                Err(CliErrorView::UnknownCommand(args[at]))
            },
        }
    } else if flag_of(args[at]) is Help {
        Err(CliErrorView::Help)
    } else if flag_of(args[at]) is Version {
        Err(CliErrorView::Version)
    } else if flag_of(args[at]) is Other {
        Err(CliErrorView::UnknownOption(args[at]))
    } else {
        match global_at(args, at, globals) {
            Err(e) => Err(e),
            Ok((after, taken)) => to_command(args, at + taken, after),
        }
    }
}

/// Whether the argument at `at` is the value of an option that stands before it and tells where the
/// records to be inspected are.
pub open spec fn is_location(args: Seq<Seq<char>>, at: int) -> bool {
    at >= 1 && (args[at - 1] == "--store-dir"@ || args[at - 1] == "--events-path"@)
}

/// What a question for help behind a command that has commands of its own comes to, where it may
/// name one of those at `at`.
pub open spec fn nested_help(args: Seq<Seq<char>>, at: int) -> CliErrorView {
    if at >= args.len() || args[at] == "list"@ || args[at] == "show"@ || args[at] == "help"@ {
        CliErrorView::Help
    } else {
        CliErrorView::UnknownCommand(args[at])
    }
}

/// What stands from `at` on behind the command: the global options, and everything else in order.
/// Where the command may yet be followed by one of its own (`nests`), a word that is no option and
/// no value of one is such a command. Each command has a place of its own for the global options
/// behind it: `globals` are those of the current place, `outer` those that stand before it, and the
/// innermost one counts. Any command answers a question for help. Behind `--` nothing is a global
/// option.
pub open spec fn past_command(
    args: Seq<Seq<char>>,
    at: int,
    nests: bool,
    outer: GlobalsView,
    globals: GlobalsView,
    own: Seq<Seq<char>>,
) -> Result<(GlobalsView, Seq<Seq<char>>), CliErrorView>
    decreases args.len() - at,
{
    if at >= args.len() {
        Ok((globals.over(outer), own))
    } else if args[at] == "--"@ {
        Ok((globals.over(outer), own + args.skip(at)))
    } else if !is_option(args[at]) {
        if !nests || is_location(args, at) {
            past_command(args, at + 1, nests, outer, globals, own.push(args[at]))
        } else if args[at] == "help"@ {
            Err(nested_help(args, at + 1))
        } else {
            past_command(
                args,
                at + 1,
                false,
                globals.over(outer),
                GlobalsView::none(),
                own.push(args[at]),
            )
        }
    } else if flag_of(args[at]) is Help {
        Err(CliErrorView::Help)
    } else {
        match global_at(args, at, globals) {
            Err(e) => Err(e),
            Ok((after, taken)) => if taken == 0 {
                past_command(args, at + 1, nests, outer, globals, own.push(args[at]))
            } else {
                past_command(args, at + taken, nests, outer, after, own)
            },
        }
    }
}

/// A command line.
#[derive(Debug)]
pub struct Cli {
    /// The path of the config file.
    pub config: Option<String>,
    /// How often `-v` was given.
    pub verbose: u8,
    /// The format of the log.
    pub log_format: Option<LogFormat>,
    pub command: Command,
    /// What the command itself is given.
    pub args: Vec<String>,
}

/// What a [`Cli`] says.
#[verifier::ext_equal]
pub struct CliView {
    pub globals: GlobalsView,
    pub command: Command,
    pub args: Seq<Seq<char>>,
}

impl View for Cli {
    type V = CliView;

    open spec fn view(&self) -> CliView {
        CliView {
            globals: GlobalsView {
                config: optional_view(self.config),
                verbose: self.verbose,
                log_format: self.log_format,
            },
            command: self.command,
            args: texts(self.args@),
        }
    }
}

/// What a command line says. Its first argument is the name of the program. Where an option stands
/// on both sides of a command, the one behind it counts.
pub open spec fn command_line(args: Seq<Seq<char>>) -> Result<CliView, CliErrorView> {
    match to_command(args, 1, GlobalsView::none()) {
        Err(e) => Err(e),
        Ok((outer, command, at)) => match past_command(
            args,
            at,
            command.nests(),
            outer,
            GlobalsView::none(),
            Seq::empty(),
        ) {
            Err(e) => Err(e),
            Ok((globals, own)) => Ok(CliView { globals, command, args: own }),
        },
    }
}

/// What the outcome of reading a command line says.
pub open spec fn cli_view(outcome: Result<Cli, CliError>) -> Result<CliView, CliErrorView> {
    match outcome {
        Ok(cli) => Ok(cli@),
        Err(e) => Err(e@),
    }
}

fn read_help(args: &[&str], at: usize) -> (error: CliError)
    requires
        at <= args@.len(),
    ensures
        help_about(words(args@), at as int) == Err::<(GlobalsView, Command, int), CliErrorView>(
            error@,
        ),
{
    if at == args.len() {
        return CliError::Help;
    }
    let topic: &str = args[at];
    assert(words(args@)[at as int] == topic@);
    if find_command(topic).is_some() || same_text(topic, "help") {
        CliError::Help
    } else {
        CliError::UnknownCommand(topic.to_string())
    }
}

fn read_to_command(args: &[&str]) -> (outcome: Result<(Globals, Command, usize), CliError>)
    ensures
        match outcome {
            Ok((globals, command, at)) => to_command(words(args@), 1, GlobalsView::none()) == Ok::<
                (GlobalsView, Command, int),
                CliErrorView,
            >((globals@, command, at as int)) && 1 <= at <= args@.len(),
            Err(e) => to_command(words(args@), 1, GlobalsView::none()) == Err::<
                (GlobalsView, Command, int),
                CliErrorView,
            >(e@),
        },
{
    let n: usize = args.len();
    let mut globals = Globals::none();
    let mut at: usize = 1;
    while at < n
        invariant
            n == args@.len(),
            at >= 1,
            to_command(words(args@), 1, GlobalsView::none()) == to_command(
                words(args@),
                at as int,
                globals@,
            ),
        decreases n - at,
    {
        let arg: &str = args[at];
        assert(words(args@)[at as int] == arg@);
        if !looks_like_option(arg) {
            return match find_command(arg) {
                Some(command) => Ok((globals, command, at + 1)),
                None => if same_text(arg, "help") {
                    Err(read_help(args, at + 1))
                } else {
                    Err(CliError::UnknownCommand(arg.to_string()))
                },
            };
        }
        match read_flag(arg) {
            Flag::Help => {
                return Err(CliError::Help);
            },
            Flag::Version => {
                return Err(CliError::Version);
            },
            Flag::Other => {
                return Err(CliError::UnknownOption(arg.to_string()));
            },
            _ => {},
        }
        match globals.take_in(args, at) {
            Ok(taken) => {
                at = at + taken;
            },
            Err(e) => {
                return Err(e);
            },
        }
    }
    Err(CliError::NoCommand)
}

fn read_nested_help(args: &[&str], at: usize) -> (error: CliError)
    requires
        at <= args@.len(),
    ensures
        error@ == nested_help(words(args@), at as int),
{
    if at == args.len() {
        return CliError::Help;
    }
    let topic: &str = args[at];
    assert(words(args@)[at as int] == topic@);
    if same_text(topic, "list") || same_text(topic, "show") || same_text(topic, "help") {
        CliError::Help
    } else {
        CliError::UnknownCommand(topic.to_string())
    }
}

fn read_past_command(args: &[&str], from: usize, command: Command, before: Globals) -> (outcome:
    Result<(Globals, Vec<String>), CliError>)
    requires
        1 <= from <= args@.len(),
    ensures
        match outcome {
            Ok((globals, own)) => past_command(
                words(args@),
                from as int,
                command.nests(),
                before@,
                GlobalsView::none(),
                Seq::empty(),
            ) == Ok::<(GlobalsView, Seq<Seq<char>>), CliErrorView>((globals@, texts(own@))),
            Err(e) => past_command(
                words(args@),
                from as int,
                command.nests(),
                before@,
                GlobalsView::none(),
                Seq::empty(),
            ) == Err::<(GlobalsView, Seq<Seq<char>>), CliErrorView>(e@),
        },
{
    let n: usize = args.len();
    let ghost all = words(args@);
    let ghost goal = past_command(
        all,
        from as int,
        command.nests(),
        before@,
        GlobalsView::none(),
        Seq::empty(),
    );
    let mut outer = before;
    let mut globals = Globals::none();
    let mut nests = command.has_commands();
    let mut own: Vec<String> = Vec::new();
    let mut at: usize = from;
    assert(texts(own@) =~= Seq::<Seq<char>>::empty());
    while at < n
        invariant
            n == args@.len(),
            all == words(args@),
            1 <= at <= n,
            goal == past_command(
                all,
                from as int,
                command.nests(),
                before@,
                GlobalsView::none(),
                Seq::empty(),
            ),
            goal == past_command(all, at as int, nests, outer@, globals@, texts(own@)),
        decreases n - at,
    {
        let arg: &str = args[at];
        assert(all[at as int] == arg@);
        assert(all[at - 1] == args@[at - 1]@);
        let ghost so_far = texts(own@);
        if same_text(arg, "--") {
            let mut i: usize = at;
            assert(so_far + all.skip(at as int).take(0) =~= so_far);
            while i < n
                invariant
                    n == args@.len(),
                    all == words(args@),
                    at <= i <= n,
                    texts(own@) == so_far + all.skip(at as int).take(i - at),
                decreases n - i,
            {
                let ghost shorter = texts(own@);
                own.push(args[i].to_string());
                assert(texts(own@) =~= shorter.push(all[i as int]));
                assert(texts(own@) =~= so_far + all.skip(at as int).take(i + 1 - at));
                i = i + 1;
            }
            assert(all.skip(at as int).take(n - at) =~= all.skip(at as int));
            return Ok((globals.over(outer), own));
        }
        if looks_like_option(arg) {
            if let Flag::Help = read_flag(arg) {
                return Err(CliError::Help);
            }
            match globals.take_in(args, at) {
                Ok(taken) => {
                    if taken > 0 {
                        at = at + taken;
                        continue;
                    }
                },
                Err(e) => {
                    return Err(e);
                },
            }
        } else if nests && !same_text(args[at - 1], "--store-dir") && !same_text(
            args[at - 1],
            "--events-path",
        ) {
            if same_text(arg, "help") {
                return Err(read_nested_help(args, at + 1));
            }
            outer = globals.over(outer);
            globals = Globals::none();
            nests = false;
        }
        own.push(arg.to_string());
        assert(texts(own@) =~= so_far.push(arg@));
        at = at + 1;
    }
    Ok((globals.over(outer), own))
}

impl Cli {
    /// Reads a command line, whose first argument is the name of the program.
    pub fn try_parse_from(args: &[&str]) -> (outcome: Result<Cli, CliError>)
        ensures
            cli_view(outcome) == command_line(words(args@)),
    {
        match read_to_command(args) {
            Err(e) => Err(e),
            Ok((outer, command, at)) => match read_past_command(args, at, command, outer) {
                Err(e) => Err(e),
                Ok((globals, own)) => Ok(
                    Cli {
                        config: globals.config,
                        verbose: globals.verbose,
                        log_format: globals.log_format,
                        command,
                        args: own,
                    },
                ),
            },
        }
    }

    /// Completes a command line from the environment: where it has no `--config`, by the value of
    /// `TARS_CONFIG`, and where it has no `--log-format`, by that of `TARS_LOG_FORMAT_FLAG`.
    pub fn or_environment(self, config: Option<String>, log_format: Option<String>) -> (outcome:
        Result<Cli, CliError>)
        ensures
            cli_view(outcome) == from_environment(
                self@,
                optional_view(config),
                optional_view(log_format),
            ),
    {
        let mut cli = self;
        if cli.config.is_none() {
            if let Some(value) = config {
                if value.as_str().is_empty() {
                    return Err(CliError::EmptyConfig);
                }
                cli.config = Some(value);
            }
        }
        if cli.log_format.is_none() {
            if let Some(value) = log_format {
                match find_format(value.as_str()) {
                    Some(format) => {
                        cli.log_format = Some(format);
                    },
                    None => {
                        return Err(CliError::UnknownFormat(value));
                    },
                }
            }
        }
        Ok(cli)
    }

    /// What to tell a user who gives a config file to a command that has no use for one.
    pub fn config_warning(&self) -> (warning: Option<&'static str>)
        ensures
            match warning {
                Some(text) => self.config is Some && ignored_config(self.command) == Some(text@),
                None => self.config is None || ignored_config(self.command) is None,
            },
    {
        if self.config.is_none() {
            return None;
        }
        match self.command {
            Command::Trajectory => Some(
                "--config is ignored by `tars trajectory` (use --events-path / TARS_EVENTS_PATH instead)",
            ),
            Command::Init => Some(
                "--config is ignored by `tars init` (use --path to redirect output)",
            ),
            Command::Events => Some(
                "--config is ignored by `tars events` (use --store-dir / TARS_EVENT_STORE_DIR instead)",
            ),
            _ => None,
        }
    }
}

/// What a command line says once it is completed from the environment.
pub open spec fn from_environment(
    cli: CliView,
    config: Option<Seq<char>>,
    log_format: Option<Seq<char>>,
) -> Result<CliView, CliErrorView> {
    let config = if cli.globals.config is Some {
        cli.globals.config
    } else {
        config
    };
    if config matches Some(path) && path.len() == 0 && cli.globals.config is None {
        Err(CliErrorView::EmptyConfig)
    } else if cli.globals.log_format is Some || log_format is None {
        Ok(CliView { globals: GlobalsView { config, ..cli.globals }, ..cli })
    } else {
        match format_named(log_format->Some_0) {
            Some(format) => Ok(
                CliView {
                    globals: GlobalsView { config, log_format: Some(format), ..cli.globals },
                    ..cli
                },
            ),
            None => Err(CliErrorView::UnknownFormat(log_format->Some_0)),
        }
    }
}

/// What to say of a config file to a command that has no use for one.
pub open spec fn ignored_config(command: Command) -> Option<Seq<char>> {
    match command {
        Command::Trajectory => Some(
            "--config is ignored by `tars trajectory` (use --events-path / TARS_EVENTS_PATH instead)"@,
        ),
        Command::Init => Some(
            "--config is ignored by `tars init` (use --path to redirect output)"@,
        ),
        Command::Events => Some(
            "--config is ignored by `tars events` (use --store-dir / TARS_EVENT_STORE_DIR instead)"@,
        ),
        _ => None,
    }
}

/// The line that reports the failure of a command, with the description of what went wrong.
pub fn failure_line(command: Command, description: &str) -> (line: String)
    ensures
        line@ == "error in `tars "@ + command.spelling() + "`: "@ + description@,
{
    let mut line = "error in `tars ".to_string();
    line.append(command.name());
    line.append("`: ");
    line.append(description);
    line
}

// ---------------------------------------------------------------------------
// Laws
// ---------------------------------------------------------------------------

/// A log format other than the two there are is never accepted in silence: a command line with
/// `--log-format` and such a value before the command is refused.
pub proof fn law_unknown_format_is_refused(args: Seq<Seq<char>>)
    requires
        args.len() >= 3,
        args[1] == "--log-format"@,
        !is_option(args[2]),
        format_named(args[2]) is None,
    ensures
        command_line(args) == Err::<CliView, CliErrorView>(CliErrorView::UnknownFormat(args[2])),
{
    lemma_format_option();
}

/// Asking for a log format before the command and behind it comes to the same.
pub proof fn law_format_stands_on_either_side(
    program: Seq<char>,
    command: Command,
    name: Seq<char>,
)
    requires
        format_named(name) is Some,
        !is_option(name),
    ensures
        command_line(seq![program, "--log-format"@, name, command.spelling()]) == command_line(
            seq![program, command.spelling(), "--log-format"@, name],
        ),
        command_line(seq![program, "--log-format"@, name, command.spelling()]) matches Ok(cli)
            && cli.globals.log_format == format_named(name) && cli.command == command,
{
    lemma_format_option();
    law_command_names(command, command.spelling());
    lemma_command_is_no_option(command);
    let none = GlobalsView::none();
    let some = GlobalsView { log_format: format_named(name), ..none };
    let a = seq![program, "--log-format"@, name, command.spelling()];
    assert(to_command(a, 3, some) == Ok::<(GlobalsView, Command, int), CliErrorView>(
        (some, command, 4),
    ));
    assert(global_at(a, 1, none) == Ok::<(GlobalsView, int), CliErrorView>((some, 2)));
    assert(to_command(a, 1, none) == to_command(a, 3, some));
    let b = seq![program, command.spelling(), "--log-format"@, name];
    assert(to_command(b, 1, none) == Ok::<(GlobalsView, Command, int), CliErrorView>(
        (none, command, 2),
    ));
    assert(global_at(b, 2, none) == Ok::<(GlobalsView, int), CliErrorView>((some, 2)));
    let nests = command.nests();
    assert(past_command(b, 4, nests, none, some, Seq::empty()) == Ok::<
        (GlobalsView, Seq<Seq<char>>),
        CliErrorView,
    >((some, Seq::empty())));
    assert(past_command(b, 2, nests, none, none, Seq::empty()) == past_command(
        b,
        4,
        nests,
        none,
        some,
        Seq::empty(),
    ));
    assert(past_command(a, 4, nests, some, none, Seq::empty()) == Ok::<
        (GlobalsView, Seq<Seq<char>>),
        CliErrorView,
    >((some, Seq::empty())));
}

/// Behind a command that has commands of its own, a config file may be named in the place of each
/// of the two; the inner one counts.
pub proof fn law_innermost_config_counts(
    program: Seq<char>,
    command: Command,
    first: Seq<char>,
    inner: Seq<char>,
    second: Seq<char>,
)
    requires
        command.nests(),
        first.len() > 0,
        !is_option(first),
        !is_option(inner),
        inner != "help"@,
        second.len() > 0,
        !is_option(second),
    ensures
        command_line(
            seq![program, command.spelling(), "--config"@, first, inner, "--config"@, second],
        ) matches Ok(cli) && cli.globals.config == Some(second) && cli.command == command
            && cli.args == seq![inner],
{
    lemma_config_option();
    law_command_names(command, command.spelling());
    lemma_command_is_no_option(command);
    let none = GlobalsView::none();
    let outside = GlobalsView { config: Some(first), ..none };
    let inside = GlobalsView { config: Some(second), ..none };
    let args = seq![program, command.spelling(), "--config"@, first, inner, "--config"@, second];
    let own = Seq::<Seq<char>>::empty();
    let named = own.push(inner);
    reveal_strlit("--");
    reveal_strlit("--store-dir");
    reveal_strlit("--events-path");
    assert(is_option("--"@) && is_option("--store-dir"@) && is_option("--events-path"@));
    assert(to_command(args, 1, none) == Ok::<(GlobalsView, Command, int), CliErrorView>(
        (none, command, 2),
    ));
    assert(global_at(args, 2, none) == Ok::<(GlobalsView, int), CliErrorView>((outside, 2)));
    assert(past_command(args, 2, true, none, none, own) == past_command(
        args,
        4,
        true,
        none,
        outside,
        own,
    ));
    assert(outside.over(none) =~= outside);
    assert(past_command(args, 4, true, none, outside, own) == past_command(
        args,
        5,
        false,
        outside,
        none,
        named,
    ));
    assert(global_at(args, 5, none) == Ok::<(GlobalsView, int), CliErrorView>((inside, 2)));
    assert(past_command(args, 5, false, outside, none, named) == past_command(
        args,
        7,
        false,
        outside,
        inside,
        named,
    ));
    assert(past_command(args, 7, false, outside, inside, named) == Ok::<
        (GlobalsView, Seq<Seq<char>>),
        CliErrorView,
    >((inside.over(outside), named)));
    assert(named =~= seq![inner]);
}

proof fn lemma_config_option()
    ensures
        is_option("--config"@),
        "--config"@ != "--"@,
        flag_of("--config"@) == FlagView::Config(0, None),
{
    reveal_strlit("--config");
    reveal_strlit("--verbose");
    reveal_strlit("--");
    assert("--config"@.len() == 8 && "--verbose"@.len() == 9 && "--"@.len() == 2);
}

proof fn lemma_format_option()
    ensures
        is_option("--log-format"@),
        "--log-format"@ != "--"@,
        flag_of("--log-format"@) == FlagView::Format(None),
{
    reveal_strlit("--log-format");
    reveal_strlit("--verbose");
    reveal_strlit("--config");
    reveal_strlit("--config=");
    reveal_strlit("--");
    assert("--log-format"@.len() == 12 && "--verbose"@.len() == 9 && "--config"@.len() == 8
        && "--config="@.len() == 9 && "--"@.len() == 2);
    assert("--log-format"@.take(9)[2] != "--config="@[2]);
}

pub proof fn lemma_command_is_no_option(command: Command)
    ensures
        !is_option(command.spelling()),
{
    reveal_strlit("run");
    reveal_strlit("plan");
    reveal_strlit("run-task");
    reveal_strlit("probe");
    reveal_strlit("bench");
    reveal_strlit("trajectory");
    reveal_strlit("init");
    reveal_strlit("events");
}

/// What the command line says counts, whatever the environment says.
pub proof fn law_command_line_comes_first(
    cli: CliView,
    config: Option<Seq<char>>,
    log_format: Option<Seq<char>>,
)
    ensures
        from_environment(cli, config, log_format) matches Ok(full) ==> {
            &&& full.command == cli.command
            &&& full.args == cli.args
            &&& full.globals.verbose == cli.globals.verbose
            &&& cli.globals.config is Some ==> full.globals.config == cli.globals.config
            &&& cli.globals.log_format is Some ==> full.globals.log_format
                == cli.globals.log_format
        },
        cli.globals.config is Some && cli.globals.log_format is Some ==> from_environment(
            cli,
            config,
            log_format,
        ) == Ok::<CliView, CliErrorView>(cli),
{
}

} // verus!
