//! What holds of every command line.

use vstd::prelude::*;

use crate::cli::{
    begins, cli_view, command_line, command_named, flag_of, format_named, from_environment,
    global_at, help_about, ignored_config, is_location, is_option, nested_help, option_value,
    optional_view, past_command, short_flags, to_command, words, Cli, CliError, CliErrorView,
    CliView, Command, FlagView, GlobalsView, LogFormat,
};
use crate::text::texts;

verus! {

// ---------------------------------------------------------------------------
// Words
// ---------------------------------------------------------------------------

/// The names of the commands and of the formats.
pub proof fn law_names(name: Seq<char>)
    ensures
        Command::Run.spelling() == "run"@,
        Command::Plan.spelling() == "plan"@,
        Command::RunTask.spelling() == "run-task"@,
        Command::Probe.spelling() == "probe"@,
        Command::Bench.spelling() == "bench"@,
        Command::Trajectory.spelling() == "trajectory"@,
        Command::Init.spelling() == "init"@,
        Command::Events.spelling() == "events"@,
        command_named(name) is Some <==> name == "run"@ || name == "plan"@ || name == "run-task"@
            || name == "probe"@ || name == "bench"@ || name == "trajectory"@ || name == "init"@
            || name == "events"@,
        name == "pretty"@ ==> format_named(name) == Some(LogFormat::Pretty),
        name == "json"@ ==> format_named(name) == Some(LogFormat::Json),
        name != "pretty"@ && name != "json"@ ==> format_named(name) is None,
{
    reveal_strlit("pretty");
    reveal_strlit("json");
    assert("pretty"@.len() == 6 && "json"@.len() == 4);
}

/// Which commands have commands of their own.
pub proof fn law_nesting(command: Command)
    ensures
        command.nests() <==> command == Command::Trajectory || command == Command::Events,
{
}

/// An option begins with a hyphen and goes on.
pub proof fn law_options(arg: Seq<char>, rest: Seq<char>, c: char)
    ensures
        rest.len() > 0 ==> is_option(seq!['-'] + rest),
        c != '-' ==> !is_option(seq![c] + rest),
        arg.len() < 2 ==> !is_option(arg),
{
}

// ---------------------------------------------------------------------------
// Flags
// ---------------------------------------------------------------------------

proof fn lemma_flag_words()
    ensures
        "--verbose"@.len() == 9 && "--config"@.len() == 8 && "--config="@.len() == 9,
        "--log-format"@.len() == 12 && "--log-format="@.len() == 13,
        "--help"@.len() == 6 && "--version"@.len() == 9,
        "--verbose"@[2] == 'v' && "--config"@[2] == 'c' && "--config="@[2] == 'c',
        "--verbose"@[5] == 'b' && "--version"@[5] == 's',
        "--log-format"@[2] == 'l' && "--log-format="@[2] == 'l' && "--help"@[2] == 'h',
        "--version"@[2] == 'v',
        "--verbose"@[1] == '-' && "--config"@[1] == '-' && "--config="@[1] == '-',
        "--log-format"@[1] == '-' && "--log-format="@[1] == '-' && "--help"@[1] == '-',
        "--version"@[1] == '-',
        "--config="@[8] == '=' && "--log-format="@[12] == '=',
        "--config="@.take(8) == "--config"@,
        "--log-format="@.take(12) == "--log-format"@,
{
    reveal_strlit("--verbose");
    reveal_strlit("--config");
    reveal_strlit("--config=");
    reveal_strlit("--log-format");
    reveal_strlit("--log-format=");
    reveal_strlit("--help");
    reveal_strlit("--version");
    assert("--config="@.take(8) =~= "--config"@);
    assert("--log-format="@.take(12) =~= "--log-format"@);
}

/// The long options, with their values attached or not.
pub proof fn law_long_options(value: Seq<char>)
    ensures
        flag_of("--verbose"@) == FlagView::Verbose(1),
        flag_of("--config"@) == FlagView::Config(0, None),
        flag_of("--config="@ + value) == FlagView::Config(0, Some(value)),
        flag_of("--log-format"@) == FlagView::Format(None),
        flag_of("--log-format="@ + value) == FlagView::Format(Some(value)),
        flag_of("--help"@) == FlagView::Help,
        flag_of("--version"@) == FlagView::Version,
{
    lemma_flag_words();
    let c = "--config="@ + value;
    assert(c.take(9) =~= "--config="@);
    assert(c.skip(9) =~= value);
    assert(c[2] == 'c');
    let f = "--log-format="@ + value;
    assert(f.take(13) =~= "--log-format="@);
    assert(f.skip(13) =~= value);
    assert(f[2] == 'l');
    assert(f.take(9)[2] == 'l');
    assert("--log-format"@.take(9)[2] == 'l');
    assert("--help"@.len() < 9);
    assert("--version"@.take(9)[2] == 'v');
    assert(f.len() >= 13);
    assert(c.len() >= 9);
}

/// Any other option with two hyphens is not known here, and neither is a bare word.
pub proof fn law_other_long_options(arg: Seq<char>)
    requires
        arg != "--verbose"@,
        arg != "--config"@,
        arg != "--log-format"@,
        arg != "--help"@,
        arg != "--version"@,
        forall|value: Seq<char>| arg != #[trigger] ("--config="@ + value),
        forall|value: Seq<char>| arg != #[trigger] ("--log-format="@ + value),
        arg.len() < 2 || arg[0] != '-' || arg[1] == '-',
    ensures
        flag_of(arg) == FlagView::Other,
{
    lemma_flag_words();
    if begins(arg, "--config="@) {
        assert(arg =~= "--config="@ + arg.skip(9));
    }
    if begins(arg, "--log-format="@) {
        assert(arg =~= "--log-format="@ + arg.skip(13));
    }
}

proof fn lemma_short_flags(vs: Seq<char>, rest: Seq<char>, n: nat)
    requires
        forall|i: int| 0 <= i < vs.len() ==> #[trigger] vs[i] == 'v',
    ensures
        short_flags(vs + rest, n) == short_flags(rest, n + vs.len()),
    decreases vs.len(),
{
    if vs.len() == 0 {
        assert(vs + rest =~= rest);
    } else {
        assert((vs + rest)[0] == 'v');
        assert((vs + rest).drop_first() =~= vs.drop_first() + rest);
        lemma_short_flags(vs.drop_first(), rest, n + 1);
    }
}

/// The short options: any number of `-v`, then nothing more, or one of `-c` with its value attached
/// or not, `-h` and `-V`. Anything else is not known here.
pub proof fn law_short_options(vs: Seq<char>, c: char, value: Seq<char>)
    requires
        forall|i: int| 0 <= i < vs.len() ==> #[trigger] vs[i] == 'v',
    ensures
        vs.len() > 0 ==> flag_of(seq!['-'] + vs) == FlagView::Verbose(vs.len()),
        flag_of(seq!['-'] + vs.push('c')) == FlagView::Config(vs.len(), None),
        flag_of(seq!['-'] + (vs.push('c').push('=') + value)) == FlagView::Config(
            vs.len(),
            Some(value),
        ),
        value.len() > 0 && value[0] != '=' ==> flag_of(seq!['-'] + (vs.push('c') + value))
            == FlagView::Config(vs.len(), Some(value)),
        flag_of(seq!['-'] + (vs.push('h') + value)) == FlagView::Help,
        flag_of(seq!['-'] + (vs.push('V') + value)) == FlagView::Version,
        c != 'v' && c != 'c' && c != 'h' && c != 'V' && c != '-' ==> flag_of(
            seq!['-'] + (vs.push(c) + value),
        ) == FlagView::Other,
        vs.len() > 0 && c == '-' ==> flag_of(seq!['-'] + (vs.push(c) + value)) == FlagView::Other,
{
    lemma_flag_words();
    let none = Seq::<char>::empty();
    if vs.len() > 0 {
        lemma_short_flags(vs, none, 0);
        assert(vs + none =~= vs);
        lemma_short(vs);
    }
    lemma_short_flags(vs, seq!['c'], 0);
    assert(vs + seq!['c'] =~= vs.push('c'));
    lemma_short(vs.push('c'));
    assert(seq!['c'].drop_first() =~= none);
    let with_sign = seq!['c', '='] + value;
    lemma_short_flags(vs, with_sign, 0);
    assert(vs + with_sign =~= vs.push('c').push('=') + value);
    assert(with_sign.drop_first().drop_first() =~= value);
    lemma_short(vs.push('c').push('=') + value);
    let without = seq!['c'] + value;
    lemma_short_flags(vs, without, 0);
    assert(vs + without =~= vs.push('c') + value);
    assert(without.drop_first() =~= value);
    lemma_short(vs.push('c') + value);
    lemma_short_flags(vs, seq!['h'] + value, 0);
    assert(vs + (seq!['h'] + value) =~= vs.push('h') + value);
    lemma_short(vs.push('h') + value);
    lemma_short_flags(vs, seq!['V'] + value, 0);
    assert(vs + (seq!['V'] + value) =~= vs.push('V') + value);
    lemma_short(vs.push('V') + value);
    if c != 'v' && c != 'c' && c != 'h' && c != 'V' {
        lemma_short_flags(vs, seq![c] + value, 0);
        assert(vs + (seq![c] + value) =~= vs.push(c) + value);
        if c != '-' || vs.len() > 0 {
            lemma_short(vs.push(c) + value);
        }
    }
}

/// An option with one hyphen is read by its letters.
proof fn lemma_short(letters: Seq<char>)
    requires
        letters.len() > 0,
        letters[0] != '-',
    ensures
        flag_of(seq!['-'] + letters) == short_flags(letters, 0),
{
    lemma_flag_words();
    let arg = seq!['-'] + letters;
    assert(arg[1] == letters[0]);
    assert(arg.drop_first() =~= letters);
    if begins(arg, "--config="@) {
        assert(arg.take(9)[1] == '-');
    }
    if begins(arg, "--log-format="@) {
        assert(arg.take(13)[1] == '-');
    }
}

// ---------------------------------------------------------------------------
// Global options
// ---------------------------------------------------------------------------

/// How the global options add up: each `-v` counts, up to 255 of them; a config file and a format
/// can be given once in one place, the file by a path that is not empty and the format by its name.
pub proof fn law_global_options(g: GlobalsView, n: nat, value: Seq<char>)
    ensures
        GlobalsView::none() == (GlobalsView { config: None, verbose: 0, log_format: None }),
        g.louder(n).config == g.config && g.louder(n).log_format == g.log_format,
        g.verbose + n <= 255 ==> g.louder(n).verbose == g.verbose + n,
        g.verbose + n > 255 ==> g.louder(n).verbose == 255,
        g.config is Some ==> g.with_config(value) == Err::<GlobalsView, CliErrorView>(
            CliErrorView::Repeated("--config"@),
        ),
        g.config is None && value.len() == 0 ==> g.with_config(value) == Err::<
            GlobalsView,
            CliErrorView,
        >(CliErrorView::EmptyConfig),
        g.config is None && value.len() > 0 ==> g.with_config(value) == Ok::<
            GlobalsView,
            CliErrorView,
        >(GlobalsView { config: Some(value), verbose: g.verbose, log_format: g.log_format }),
        g.log_format is Some ==> g.with_format(value) == Err::<GlobalsView, CliErrorView>(
            CliErrorView::Repeated("--log-format"@),
        ),
        g.log_format is None ==> (format_named(value) matches Some(f) ==> g.with_format(value)
            == Ok::<GlobalsView, CliErrorView>(
            GlobalsView { config: g.config, verbose: g.verbose, log_format: Some(f) },
        )),
        g.log_format is None && format_named(value) is None ==> g.with_format(value) == Err::<
            GlobalsView,
            CliErrorView,
        >(CliErrorView::UnknownFormat(value)),
{
}

/// What is given further in counts before what is given further out.
pub proof fn law_inner_before_outer(inner: GlobalsView, outer: GlobalsView)
    ensures
        inner.config is Some ==> inner.over(outer).config == inner.config,
        inner.config is None ==> inner.over(outer).config == outer.config,
        inner.verbose > 0 ==> inner.over(outer).verbose == inner.verbose,
        inner.verbose == 0 ==> inner.over(outer).verbose == outer.verbose,
        inner.log_format is Some ==> inner.over(outer).log_format == inner.log_format,
        inner.log_format is None ==> inner.over(outer).log_format == outer.log_format,
{
}

/// The value of an option is attached to it, or else is the next argument, if that is no option.
pub proof fn law_option_values(
    args: Seq<Seq<char>>,
    at: int,
    value: Seq<char>,
    option: Seq<char>,
)
    ensures
        option_value(args, at, Some(value), option) == Ok::<(Seq<char>, int), CliErrorView>(
            (value, 1),
        ),
        at + 1 < args.len() && !is_option(args[at + 1]) ==> option_value(args, at, None, option)
            == Ok::<(Seq<char>, int), CliErrorView>((args[at + 1], 2)),
        at + 1 >= args.len() || is_option(args[at + 1]) ==> option_value(args, at, None, option)
            == Err::<(Seq<char>, int), CliErrorView>(CliErrorView::MissingValue(option)),
{
}

/// What an argument does to the global options, and how many arguments it takes up.
pub proof fn law_global_arguments(args: Seq<Seq<char>>, at: int, g: GlobalsView)
    ensures
        flag_of(args[at]) matches FlagView::Verbose(n) ==> global_at(args, at, g) == Ok::<
            (GlobalsView, int),
            CliErrorView,
        >((g.louder(n), 1)),
        flag_of(args[at]) matches FlagView::Config(n, attached) ==> match option_value(
            args,
            at,
            attached,
            "--config"@,
        ) {
            Err(e) => global_at(args, at, g) == Err::<(GlobalsView, int), CliErrorView>(e),
            Ok((value, taken)) => match g.louder(n).with_config(value) {
                Err(e) => global_at(args, at, g) == Err::<(GlobalsView, int), CliErrorView>(e),
                Ok(after) => global_at(args, at, g) == Ok::<(GlobalsView, int), CliErrorView>(
                    (after, taken),
                ),
            },
        },
        flag_of(args[at]) matches FlagView::Format(attached) ==> match option_value(
            args,
            at,
            attached,
            "--log-format"@,
        ) {
            Err(e) => global_at(args, at, g) == Err::<(GlobalsView, int), CliErrorView>(e),
            Ok((value, taken)) => match g.with_format(value) {
                Err(e) => global_at(args, at, g) == Err::<(GlobalsView, int), CliErrorView>(e),
                Ok(after) => global_at(args, at, g) == Ok::<(GlobalsView, int), CliErrorView>(
                    (after, taken),
                ),
            },
        },
        flag_of(args[at]) is Help || flag_of(args[at]) is Version || flag_of(args[at]) is Other
            ==> global_at(args, at, g) == Ok::<(GlobalsView, int), CliErrorView>((g, 0)),
{
}

// ---------------------------------------------------------------------------
// The command line
// ---------------------------------------------------------------------------

/// Up to the command: a bare word is the command, or a question for help, or unknown; a global
/// option is taken in; help, the version and unknown options end the reading.
pub proof fn law_up_to_the_command(args: Seq<Seq<char>>, at: int, g: GlobalsView)
    ensures
        at >= args.len() ==> to_command(args, at, g) == Err::<
            (GlobalsView, Command, int),
            CliErrorView,
        >(CliErrorView::NoCommand),
        0 <= at < args.len() && !is_option(args[at]) ==> (command_named(args[at]) matches Some(c)
            ==> to_command(args, at, g) == Ok::<(GlobalsView, Command, int), CliErrorView>(
            (g, c, at + 1),
        )),
        0 <= at < args.len() && !is_option(args[at]) && command_named(args[at]) is None
            && args[at] != "help"@ ==> to_command(args, at, g) == Err::<
            (GlobalsView, Command, int),
            CliErrorView,
        >(CliErrorView::UnknownCommand(args[at])),
        0 <= at < args.len() && args[at] == "help"@ && !is_option(args[at]) && command_named(
            args[at],
        ) is None ==> to_command(args, at, g) == help_about(args, at + 1),
        0 <= at < args.len() && is_option(args[at]) ==> match flag_of(args[at]) {
            FlagView::Help => to_command(args, at, g) == Err::<
                (GlobalsView, Command, int),
                CliErrorView,
            >(CliErrorView::Help),
            FlagView::Version => to_command(args, at, g) == Err::<
                (GlobalsView, Command, int),
                CliErrorView,
            >(CliErrorView::Version),
            FlagView::Other => to_command(args, at, g) == Err::<
                (GlobalsView, Command, int),
                CliErrorView,
            >(CliErrorView::UnknownOption(args[at])),
            _ => match global_at(args, at, g) {
                Err(e) => to_command(args, at, g) == Err::<
                    (GlobalsView, Command, int),
                    CliErrorView,
                >(e),
                Ok((after, taken)) => to_command(args, at, g) == to_command(
                    args,
                    at + taken,
                    after,
                ),
            },
        },
{
}

/// What a question for help comes to.
pub proof fn law_help(args: Seq<Seq<char>>, at: int)
    ensures
        at >= args.len() || command_named(args[at]) is Some || args[at] == "help"@ ==> help_about(
            args,
            at,
        ) == Err::<(GlobalsView, Command, int), CliErrorView>(CliErrorView::Help),
        0 <= at < args.len() && command_named(args[at]) is None && args[at] != "help"@
            ==> help_about(args, at) == Err::<(GlobalsView, Command, int), CliErrorView>(
            CliErrorView::UnknownCommand(args[at]),
        ),
        at >= args.len() || args[at] == "list"@ || args[at] == "show"@ || args[at] == "help"@
            ==> nested_help(args, at) == CliErrorView::Help,
        0 <= at < args.len() && args[at] != "list"@ && args[at] != "show"@ && args[at] != "help"@
            ==> nested_help(args, at) == CliErrorView::UnknownCommand(args[at]),
        is_location(args, at) <==> at >= 1 && (args[at - 1] == "--store-dir"@ || args[at - 1]
            == "--events-path"@),
{
}

/// Behind the command: global options are taken in, everything else is the command's own, in order
/// and unchanged. The first bare word of a command that has commands of its own opens a new place
/// for the options. Help is answered anywhere; behind two hyphens everything is the command's own.
pub proof fn law_behind_the_command(
    args: Seq<Seq<char>>,
    at: int,
    nests: bool,
    outer: GlobalsView,
    g: GlobalsView,
    own: Seq<Seq<char>>,
)
    ensures
        at >= args.len() ==> past_command(args, at, nests, outer, g, own) == Ok::<
            (GlobalsView, Seq<Seq<char>>),
            CliErrorView,
        >((g.over(outer), own)),
        0 <= at < args.len() && args[at] == "--"@ ==> past_command(args, at, nests, outer, g, own)
            == Ok::<(GlobalsView, Seq<Seq<char>>), CliErrorView>(
            (g.over(outer), own + args.skip(at)),
        ),
        0 <= at < args.len() && args[at] != "--"@ && !is_option(args[at]) && (!nests || (at >= 1
            && (args[at - 1] == "--store-dir"@ || args[at - 1] == "--events-path"@)))
            ==> past_command(args, at, nests, outer, g, own) == past_command(
            args,
            at + 1,
            nests,
            outer,
            g,
            own.push(args[at]),
        ),
        0 <= at < args.len() && args[at] != "--"@ && !is_option(args[at]) && nests && !(at >= 1 && (
        args[at - 1] == "--store-dir"@ || args[at - 1] == "--events-path"@)) && args[at] == "help"@
            ==> past_command(args, at, nests, outer, g, own) == Err::<
            (GlobalsView, Seq<Seq<char>>),
            CliErrorView,
        >(nested_help(args, at + 1)),
        0 <= at < args.len() && args[at] != "--"@ && !is_option(args[at]) && nests && !(at >= 1 && (
        args[at - 1] == "--store-dir"@ || args[at - 1] == "--events-path"@)) && args[at] != "help"@
            ==> past_command(args, at, nests, outer, g, own) == past_command(
            args,
            at + 1,
            false,
            g.over(outer),
            GlobalsView { config: None, verbose: 0, log_format: None },
            own.push(args[at]),
        ),
        0 <= at < args.len() && args[at] != "--"@ && is_option(args[at]) && flag_of(
            args[at],
        ) is Help ==> past_command(args, at, nests, outer, g, own) == Err::<
            (GlobalsView, Seq<Seq<char>>),
            CliErrorView,
        >(CliErrorView::Help),
        0 <= at < args.len() && args[at] != "--"@ && is_option(args[at]) && (flag_of(
            args[at],
        ) is Version || flag_of(args[at]) is Other) ==> past_command(
            args,
            at,
            nests,
            outer,
            g,
            own,
        ) == past_command(args, at + 1, nests, outer, g, own.push(args[at])),
        0 <= at < args.len() && args[at] != "--"@ && is_option(args[at]) && !(flag_of(
            args[at],
        ) is Help) && !(flag_of(args[at]) is Version) && !(flag_of(args[at]) is Other)
            ==> match global_at(args, at, g) {
            Err(e) => past_command(args, at, nests, outer, g, own) == Err::<
                (GlobalsView, Seq<Seq<char>>),
                CliErrorView,
            >(e),
            Ok((after, taken)) => past_command(args, at, nests, outer, g, own) == past_command(
                args,
                at + taken,
                nests,
                outer,
                after,
                own,
            ),
        },
{
}

/// A command line is read up to its command and then behind it.
pub proof fn law_whole_command_line(args: Seq<Seq<char>>)
    ensures
        ({
            let none = GlobalsView { config: None, verbose: 0, log_format: None };
            match to_command(args, 1, none) {
                Err(e) => command_line(args) == Err::<CliView, CliErrorView>(e),
                Ok((outer, command, at)) => match past_command(
                    args,
                    at,
                    command == Command::Trajectory || command == Command::Events,
                    outer,
                    none,
                    Seq::empty(),
                ) {
                    Err(e) => command_line(args) == Err::<CliView, CliErrorView>(e),
                    Ok((globals, own)) => command_line(args) == Ok::<CliView, CliErrorView>(
                        CliView { globals, command, args: own },
                    ),
                },
            }
        }),
{
}

/// Whether an argument is a command's own: neither a global option nor a question for help.
pub open spec fn is_own(arg: Seq<char>) -> bool {
    arg == "--"@ || !is_option(arg) || flag_of(arg) is Version || flag_of(arg) is Other
}

proof fn lemma_own_arguments(args: Seq<Seq<char>>, at: int, outer: GlobalsView, own: Seq<Seq<char>>)
    requires
        0 <= at <= args.len(),
        forall|i: int| at <= i < args.len() ==> is_own(#[trigger] args[i]),
    ensures
        past_command(args, at, false, outer, GlobalsView::none(), own) == Ok::<
            (GlobalsView, Seq<Seq<char>>),
            CliErrorView,
        >((GlobalsView::none().over(outer), own + args.skip(at))),
    decreases args.len() - at,
{
    if at == args.len() {
        assert(own + args.skip(at) =~= own);
    } else if args[at] != "--"@ {
        assert(is_own(args[at]));
        lemma_own_arguments(args, at + 1, outer, own.push(args[at]));
        assert(own.push(args[at]) + args.skip(at + 1) =~= own + args.skip(at));
    }
}

proof fn lemma_louder(args: Seq<Seq<char>>, at: int, end: int, g: GlobalsView)
    requires
        1 <= at <= end < args.len(),
        g.config is None && g.log_format is None,
        forall|i: int| at <= i < end ==> #[trigger] args[i] == "--verbose"@,
        command_named(args[end]) is Some,
        !is_option(args[end]),
    ensures
        to_command(args, at, g) == Ok::<(GlobalsView, Command, int), CliErrorView>(
            (g.louder((end - at) as nat), command_named(args[end])->Some_0, end + 1),
        ),
    decreases end - at,
{
    if at < end {
        lemma_flag_words();
        reveal_strlit("--verbose");
        assert(args[at] == "--verbose"@);
        assert(is_option(args[at]));
        law_long_options(Seq::empty());
        lemma_louder(args, at + 1, end, g.louder(1));
    }
}

/// Behind a command everything that is no global option reaches it, in order and unchanged, and
/// each `--verbose` before it makes the output louder by one.
pub proof fn law_arguments_reach_the_command(
    program: Seq<char>,
    louder: u8,
    command: Command,
    own: Seq<Seq<char>>,
)
    requires
        command != Command::Trajectory && command != Command::Events,
        forall|i: int| 0 <= i < own.len() ==> is_own(#[trigger] own[i]),
    ensures
        command_line(
            seq![program] + Seq::new(louder as nat, |i: int| "--verbose"@) + seq![command.spelling()]
                + own,
        ) == Ok::<CliView, CliErrorView>(
            CliView {
                globals: GlobalsView { config: None, verbose: louder, log_format: None },
                command,
                args: own,
            },
        ),
{
    let args = seq![program] + Seq::new(louder as nat, |i: int| "--verbose"@) + seq![command.spelling()]
        + own;
    let end = louder as int + 1;
    assert(args[end] == command.spelling());
    crate::cli::law_command_names(command, command.spelling());
    crate::cli::lemma_command_is_no_option(command);
    let none = GlobalsView::none();
    lemma_louder(args, 1, end, none);
    assert forall|i: int| end + 1 <= i < args.len() implies is_own(#[trigger] args[i]) by {
        assert(args[i] == own[i - end - 1]);
    }
    lemma_own_arguments(args, end + 1, none.louder(louder as nat), Seq::empty());
    assert(Seq::<Seq<char>>::empty() + args.skip(end + 1) =~= own);
}

// ---------------------------------------------------------------------------
// The environment, warnings, and what values say
// ---------------------------------------------------------------------------

/// The environment fills in what the command line leaves open, and is refused where it cannot.
pub proof fn law_environment_fills_in(
    cli: CliView,
    config: Option<Seq<char>>,
    format: Option<Seq<char>>,
)
    ensures
        cli.globals.config is None ==> (config matches Some(path) ==> path.len() == 0
            ==> from_environment(cli, config, format) == Err::<CliView, CliErrorView>(
            CliErrorView::EmptyConfig,
        )),
        from_environment(cli, config, format) matches Ok(full) ==> cli.globals.config is None
            ==> full.globals.config == config,
        from_environment(cli, config, format) matches Ok(full) ==> cli.globals.log_format is None
            ==> (format matches Some(name) ==> full.globals.log_format == format_named(name)
            && format_named(name) is Some),
        from_environment(cli, config, format) matches Ok(full) ==> cli.globals.log_format is None
            && format is None ==> full.globals.log_format is None,
        (cli.globals.config is Some || !(config matches Some(path) && path.len() == 0)) ==> (
        cli.globals.log_format is None ==> (format matches Some(name) ==> format_named(name) is None
            ==> from_environment(cli, config, format) == Err::<CliView, CliErrorView>(
            CliErrorView::UnknownFormat(name),
        ))),
        (cli.globals.config is Some || !(config matches Some(path) && path.len() == 0)) && (
        cli.globals.log_format is Some || !(format matches Some(name) && format_named(name) is None))
            ==> from_environment(cli, config, format) is Ok,
{
}

/// Which commands have no use for a config file, and what to use instead.
pub proof fn law_ignored_config(command: Command)
    ensures
        match command {
            Command::Trajectory => ignored_config(command) == Some(
                "--config is ignored by `tars trajectory` (use --events-path / TARS_EVENTS_PATH instead)"@,
            ),
            Command::Init => ignored_config(command) == Some(
                "--config is ignored by `tars init` (use --path to redirect output)"@,
            ),
            Command::Events => ignored_config(command) == Some(
                "--config is ignored by `tars events` (use --store-dir / TARS_EVENT_STORE_DIR instead)"@,
            ),
            _ => ignored_config(command) is None,
        },
{
}

/// What a command line and an error say is what they hold.
pub proof fn law_command_lines_say_what_they_hold(
    cli: Cli,
    error: CliError,
    text: String,
    args: Seq<&str>,
)
    ensures
        cli.config matches Some(c) ==> cli@.globals.config == Some(c@),
        cli.config is None ==> cli@.globals.config is None,
        cli@.globals.verbose == cli.verbose,
        cli@.globals.log_format == cli.log_format,
        cli@.command == cli.command,
        cli@.args == texts(cli.args@),
        optional_view(Some(text)) == Some(text@),
        optional_view(None) is None,
        words(args).len() == args.len(),
        forall|i: int| 0 <= i < args.len() ==> #[trigger] words(args)[i] == args[i]@,
        match error {
            CliError::Help => error@ == CliErrorView::Help,
            CliError::Version => error@ == CliErrorView::Version,
            CliError::MissingValue(s) => error@ == CliErrorView::MissingValue(s@),
            CliError::Repeated(s) => error@ == CliErrorView::Repeated(s@),
            CliError::EmptyConfig => error@ == CliErrorView::EmptyConfig,
            CliError::UnknownFormat(s) => error@ == CliErrorView::UnknownFormat(s@),
            CliError::UnknownOption(s) => error@ == CliErrorView::UnknownOption(s@),
            CliError::UnknownCommand(s) => error@ == CliErrorView::UnknownCommand(s@),
            CliError::NoCommand => error@ == CliErrorView::NoCommand,
        },
        cli_view(Ok(cli)) == Ok::<CliView, CliErrorView>(cli@),
        cli_view(Err(error)) == Err::<CliView, CliErrorView>(error@),
{
}

} // verus!
