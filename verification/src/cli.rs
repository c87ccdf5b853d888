//! The command line: `-h`/`--help`, `--no-tray`, `--console`,
//! `--brightness-50`, `--brightness-15`, `--show-settings`, `--lang <cn|en>`,
//! `--interval <sec>`, `--jiggle-interval <sec>`, `--no-display`,
//! `--no-away`, `--no-jiggle`, `--paused`.

use vstd::prelude::*;

use crate::config::{
    clamp, clamp_u64, intervals_in_range, Config, MAX_INTERVAL, MAX_JIGGLE_INTERVAL, MIN_INTERVAL, MIN_JIGGLE_INTERVAL,
};
use crate::lang::{lang_from_range, lang_of, Lang};
use crate::text::{chars_of, parse_u64_range, parse_u64_spec, range_eq};

verus! {

/// How the tool is to run.
#[derive(Clone, Copy, Debug, PartialEq, Eq, Structural)]
pub struct RunOptions {
    /// The settings, the options applied over those of the file.
    pub cfg: Config,
    /// Console mode only, no tray.
    pub no_tray: bool,
    /// Keep a console beside the tray.
    pub console: bool,
    /// Open the settings window at the start.
    pub show_settings: bool,
    /// Some option asked for console output.
    pub wants_output: bool,
}

/// What the command line asks for.
#[derive(Clone, Copy, Debug, PartialEq, Eq, Structural)]
pub enum Command {
    /// Print the help and stop.
    Help,
    /// Set the brightness to `level` percent, report in `lang`, and stop.
    Brightness { level: u32, lang: Lang },
    /// Run with these options.
    Run(RunOptions),
    /// The argument at `index` is no option: report it and exit with code 2.
    Unknown { index: usize },
}

/// The options before any argument is read.
pub open spec fn initial_options(cfg: Config) -> RunOptions {
    RunOptions { cfg, no_tray: false, console: false, show_settings: false, wants_output: false }
}

/// The arguments as texts.
pub open spec fn args_view(args: Seq<String>) -> Seq<Seq<char>> {
    args.map_values(|s: String| s@)
}

/// Whether an option consumes the argument that follows it.
pub open spec fn takes_value(a: Seq<char>) -> bool {
    a == "--lang"@ || a == "--interval"@ || a == "--jiggle-interval"@
}

/// How many arguments an option consumes, itself included.
pub open spec fn arg_width(a: Seq<char>) -> int {
    if takes_value(a) {
        2
    } else {
        1
    }
}

/// The options keep both intervals in their ranges, and console output is
/// wanted exactly where the console mode or a console was asked for.
pub open spec fn options_sound(o: RunOptions) -> bool {
    &&& intervals_in_range(o.cfg)
    &&& o.wants_output == (o.no_tray || o.console)
}

/// What one argument does.
#[derive(Clone, Copy, Debug, PartialEq, Eq, Structural)]
pub enum ArgEffect {
    /// The reading stops with this command.
    Stop(Command),
    /// The reading goes on with these options.
    Continue(RunOptions),
}

/// What the argument `a` at index `i`, followed by `value` where there is
/// a next argument, does to the options `o`. An option whose value is no
/// valid number leaves the options as they are.
#[verifier::opaque]
pub open spec fn arg_effect(a: Seq<char>, value: Option<Seq<char>>, o: RunOptions, i: int) -> ArgEffect {
    if a == "-h"@ || a == "--help"@ {
        ArgEffect::Stop(Command::Help)
    } else if a == "--no-tray"@ {
        ArgEffect::Continue(RunOptions { no_tray: true, wants_output: true, ..o })
    } else if a == "--console"@ {
        ArgEffect::Continue(RunOptions { console: true, wants_output: true, ..o })
    } else if a == "--brightness-50"@ {
        ArgEffect::Stop(Command::Brightness { level: 50, lang: o.cfg.lang })
    } else if a == "--brightness-15"@ {
        ArgEffect::Stop(Command::Brightness { level: 15, lang: o.cfg.lang })
    } else if a == "--lang"@ {
        match value {
            Some(v) => ArgEffect::Continue(
                RunOptions { cfg: Config { lang: lang_of(v), ..o.cfg }, ..o },
            ),
            None => ArgEffect::Continue(o),
        }
    } else if a == "--show-settings"@ {
        ArgEffect::Continue(RunOptions { show_settings: true, ..o })
    } else if a == "--no-display"@ {
        ArgEffect::Continue(RunOptions { cfg: Config { display: false, ..o.cfg }, ..o })
    } else if a == "--no-away"@ {
        ArgEffect::Continue(RunOptions { cfg: Config { away: false, ..o.cfg }, ..o })
    } else if a == "--no-jiggle"@ {
        ArgEffect::Continue(RunOptions { cfg: Config { jiggle: false, ..o.cfg }, ..o })
    } else if a == "--paused"@ {
        ArgEffect::Continue(RunOptions { cfg: Config { enabled: false, ..o.cfg }, ..o })
    } else if a == "--interval"@ {
        match value {
            Some(v) => match parse_u64_spec(v) {
                Some(n) => ArgEffect::Continue(
                    RunOptions {
                        cfg: Config { interval: clamp(n, MIN_INTERVAL, MAX_INTERVAL), ..o.cfg },
                        ..o
                    },
                ),
                None => ArgEffect::Continue(o),
            },
            None => ArgEffect::Continue(o),
        }
    } else if a == "--jiggle-interval"@ {
        match value {
            Some(v) => match parse_u64_spec(v) {
                Some(n) => ArgEffect::Continue(
                    RunOptions {
                        cfg: Config {
                            jiggle_interval: clamp(n, MIN_JIGGLE_INTERVAL, MAX_JIGGLE_INTERVAL),
                            ..o.cfg
                        },
                        ..o
                    },
                ),
                None => ArgEffect::Continue(o),
            },
            None => ArgEffect::Continue(o),
        }
    } else {
        ArgEffect::Stop(Command::Unknown { index: i as usize })
    }
}

/// The argument after index `i`, where there is one.
pub open spec fn value_after(args: Seq<Seq<char>>, i: int) -> Option<Seq<char>> {
    if i + 1 < args.len() {
        Some(args[i + 1])
    } else {
        None
    }
}

/// The arguments from index `i` on, read over the options `o`: help and
/// brightness stop the reading at once, as does an unknown argument.
pub open spec fn parse_from(args: Seq<Seq<char>>, i: int, o: RunOptions) -> Command
    decreases args.len() + 1 - i,
{
    if i >= args.len() || i < 0 {
        Command::Run(o)
    } else {
        match arg_effect(args[i], value_after(args, i), o, i) {
            ArgEffect::Stop(c) => c,
            ArgEffect::Continue(o2) => parse_from(args, i + arg_width(args[i]), o2),
        }
    }
}

/// What the command line `args` (the program's name first) asks for, over
/// the settings `cfg` read from the file.
pub open spec fn command_spec(args: Seq<String>, cfg: Config) -> Command {
    parse_from(args_view(args), 1, initial_options(cfg))
}

proof fn lemma_parse_from_sound(args: Seq<Seq<char>>, i: int, o: RunOptions)
    requires
        options_sound(o),
    ensures
        parse_from(args, i, o) matches Command::Run(r) ==> options_sound(r),
    decreases args.len() + 1 - i,
{
    reveal(arg_effect);
    if 0 <= i < args.len() {
        match arg_effect(args[i], value_after(args, i), o, i) {
            ArgEffect::Stop(c) => {},
            ArgEffect::Continue(o2) => {
                lemma_parse_from_sound(args, i + arg_width(args[i]), o2);
            },
        }
    }
}

/// Whatever the command line holds, the settings it runs with keep the
/// refresh interval within 5 to 600 seconds and the heartbeat interval
/// within 30 to 3600 seconds, where those read from the file did; and
/// console output is wanted exactly where `--no-tray` or `--console` was
/// given.
pub proof fn lemma_command_sound(args: Seq<String>, cfg: Config)
    requires
        intervals_in_range(cfg),
    ensures
        command_spec(args, cfg) matches Command::Run(o) ==> options_sound(o),
{
    lemma_parse_from_sound(args_view(args), 1, initial_options(cfg));
}


/// Help, alone on the command line, asks for the help.
pub proof fn lemma_help_argument(args: Seq<String>, cfg: Config)
    requires
        args.len() == 2,
        args[1]@ == "-h"@ || args[1]@ == "--help"@,
    ensures
        command_spec(args, cfg) == Command::Help,
{
    lemma_option_names();
    reveal(arg_effect);
    reveal_with_fuel(parse_from, 2);
    let av = args_view(args);
    assert(av[1] == args[1]@);
}

/// `--brightness-50` alone sets 50 percent, reported in the file's language.
pub proof fn lemma_brightness_50_argument(args: Seq<String>, cfg: Config)
    requires
        args.len() == 2,
        args[1]@ == "--brightness-50"@,
    ensures
        command_spec(args, cfg) == (Command::Brightness { level: 50, lang: cfg.lang }),
{
    lemma_option_names();
    reveal(arg_effect);
    reveal_with_fuel(parse_from, 2);
    let av = args_view(args);
    assert(av[1] == args[1]@);
}

/// `--brightness-15` alone sets 15 percent, reported in the file's language.
pub proof fn lemma_brightness_15_argument(args: Seq<String>, cfg: Config)
    requires
        args.len() == 2,
        args[1]@ == "--brightness-15"@,
    ensures
        command_spec(args, cfg) == (Command::Brightness { level: 15, lang: cfg.lang }),
{
    lemma_option_names();
    reveal(arg_effect);
    reveal_with_fuel(parse_from, 2);
    let av = args_view(args);
    assert(av[1] == args[1]@);
}

/// `--no-tray` alone asks for the console mode, with output, and changes no setting.
pub proof fn lemma_no_tray_argument(args: Seq<String>, cfg: Config)
    requires
        args.len() == 2,
        args[1]@ == "--no-tray"@,
    ensures
        command_spec(args, cfg) == Command::Run(console_only(cfg)),
{
    lemma_option_names();
    reveal(arg_effect);
    reveal_with_fuel(parse_from, 2);
    let av = args_view(args);
    assert(av[1] == args[1]@);
}

/// `--console` alone keeps a console beside the tray and changes no setting.
pub proof fn lemma_console_argument(args: Seq<String>, cfg: Config)
    requires
        args.len() == 2,
        args[1]@ == "--console"@,
    ensures
        command_spec(args, cfg) == Command::Run(tray_with_console(cfg)),
{
    lemma_option_names();
    reveal(arg_effect);
    reveal_with_fuel(parse_from, 2);
    let av = args_view(args);
    assert(av[1] == args[1]@);
}

/// `--show-settings` alone opens the settings window and changes no setting.
pub proof fn lemma_show_settings_argument(args: Seq<String>, cfg: Config)
    requires
        args.len() == 2,
        args[1]@ == "--show-settings"@,
    ensures
        command_spec(args, cfg) == Command::Run(tray_with_settings(cfg)),
{
    lemma_option_names();
    reveal(arg_effect);
    reveal_with_fuel(parse_from, 2);
    let av = args_view(args);
    assert(av[1] == args[1]@);
}

/// `--no-display` alone turns off keeping the display on, and nothing else.
pub proof fn lemma_no_display_argument(args: Seq<String>, cfg: Config)
    requires
        args.len() == 2,
        args[1]@ == "--no-display"@,
    ensures
        command_spec(args, cfg) == Command::Run(initial_options((Config { display: false, ..cfg }))),
{
    lemma_option_names();
    reveal(arg_effect);
    reveal_with_fuel(parse_from, 2);
    let av = args_view(args);
    assert(av[1] == args[1]@);
}

/// `--no-away` alone turns off away mode, and nothing else.
pub proof fn lemma_no_away_argument(args: Seq<String>, cfg: Config)
    requires
        args.len() == 2,
        args[1]@ == "--no-away"@,
    ensures
        command_spec(args, cfg) == Command::Run(initial_options((Config { away: false, ..cfg }))),
{
    lemma_option_names();
    reveal(arg_effect);
    reveal_with_fuel(parse_from, 2);
    let av = args_view(args);
    assert(av[1] == args[1]@);
}

/// `--no-jiggle` alone turns off the F15 presses, and nothing else.
pub proof fn lemma_no_jiggle_argument(args: Seq<String>, cfg: Config)
    requires
        args.len() == 2,
        args[1]@ == "--no-jiggle"@,
    ensures
        command_spec(args, cfg) == Command::Run(initial_options((Config { jiggle: false, ..cfg }))),
{
    lemma_option_names();
    reveal(arg_effect);
    reveal_with_fuel(parse_from, 2);
    let av = args_view(args);
    assert(av[1] == args[1]@);
}

/// `--paused` alone turns off keeping awake, and nothing else.
pub proof fn lemma_paused_argument(args: Seq<String>, cfg: Config)
    requires
        args.len() == 2,
        args[1]@ == "--paused"@,
    ensures
        command_spec(args, cfg) == Command::Run(initial_options((Config { enabled: false, ..cfg }))),
{
    lemma_option_names();
    reveal(arg_effect);
    reveal_with_fuel(parse_from, 2);
    let av = args_view(args);
    assert(av[1] == args[1]@);
}

/// An option that wants a value, last on the command line, changes nothing.
pub proof fn lemma_missing_value_argument(args: Seq<String>, cfg: Config)
    requires
        args.len() == 2,
        takes_value(args[1]@),
    ensures
        command_spec(args, cfg) == Command::Run(initial_options(cfg)),
{
    lemma_option_names();
    reveal(arg_effect);
    reveal_with_fuel(parse_from, 2);
    let av = args_view(args);
    assert(av[1] == args[1]@);
}

/// `--lang` and its value set the language that the value names, and
/// nothing else.
pub proof fn lemma_lang_option(args: Seq<String>, cfg: Config)
    requires
        args.len() == 3,
        args[1]@ == "--lang"@,
    ensures
        command_spec(args, cfg) == Command::Run(initial_options((Config { lang: lang_of(args[2]@), ..cfg }))),
{
    lemma_option_names();
    reveal(arg_effect);
    reveal_with_fuel(parse_from, 2);
    let av = args_view(args);
    assert(av[1] == args[1]@);
    assert(av[2] == args[2]@);
    assert(value_after(av, 1) == Some(args[2]@));
}

/// `--interval` and a number set the refresh interval to the number
/// clamped into 5 to 600, and nothing else.
pub proof fn lemma_interval_option(args: Seq<String>, cfg: Config, n: u64)
    requires
        args.len() == 3,
        args[1]@ == "--interval"@,
        parse_u64_spec(args[2]@) == Some(n),
    ensures
        command_spec(args, cfg) == Command::Run(initial_options((Config { interval: clamp(n, 5, 600), ..cfg }))),
{
    lemma_option_names();
    reveal(arg_effect);
    reveal_with_fuel(parse_from, 2);
    let av = args_view(args);
    assert(av[1] == args[1]@);
    assert(av[2] == args[2]@);
    assert(value_after(av, 1) == Some(args[2]@));
}

/// `--jiggle-interval` and a number set the heartbeat interval to the
/// number clamped into 30 to 3600, and nothing else.
pub proof fn lemma_jiggle_interval_option(args: Seq<String>, cfg: Config, n: u64)
    requires
        args.len() == 3,
        args[1]@ == "--jiggle-interval"@,
        parse_u64_spec(args[2]@) == Some(n),
    ensures
        command_spec(args, cfg) == Command::Run(initial_options((Config { jiggle_interval: clamp(n, 30, 3600), ..cfg }))),
{
    lemma_option_names();
    reveal(arg_effect);
    reveal_with_fuel(parse_from, 2);
    let av = args_view(args);
    assert(av[1] == args[1]@);
    assert(av[2] == args[2]@);
    assert(value_after(av, 1) == Some(args[2]@));
}

/// An interval option whose value is no number consumes it and changes
/// nothing.
pub proof fn lemma_interval_option_not_a_number(args: Seq<String>, cfg: Config)
    requires
        args.len() == 3,
        args[1]@ == "--interval"@ || args[1]@ == "--jiggle-interval"@,
        parse_u64_spec(args[2]@) is None,
    ensures
        command_spec(args, cfg) == Command::Run(initial_options(cfg)),
{
    lemma_option_names();
    reveal(arg_effect);
    reveal_with_fuel(parse_from, 2);
    let av = args_view(args);
    assert(av[1] == args[1]@);
    assert(av[2] == args[2]@);
    assert(value_after(av, 1) == Some(args[2]@));
}

/// An argument that names no option stops the reading and is reported by
/// its index.
pub proof fn lemma_unknown_argument(args: Seq<String>, cfg: Config)
    requires
        args.len() >= 2,
        !is_option(args[1]@),
    ensures
        command_spec(args, cfg) == (Command::Unknown { index: 1 }),
{
    reveal(arg_effect);
    let av = args_view(args);
    assert(av[1] == args[1]@);
}

/// The names of the options.
pub open spec fn is_option(a: Seq<char>) -> bool {
    ||| a == "-h"@
    ||| a == "--help"@
    ||| a == "--no-tray"@
    ||| a == "--console"@
    ||| a == "--brightness-50"@
    ||| a == "--brightness-15"@
    ||| a == "--lang"@
    ||| a == "--show-settings"@
    ||| a == "--no-display"@
    ||| a == "--no-away"@
    ||| a == "--no-jiggle"@
    ||| a == "--paused"@
    ||| a == "--interval"@
    ||| a == "--jiggle-interval"@
}

/// Console mode only, with output, settings as given.
pub open spec fn console_only(cfg: Config) -> RunOptions {
    RunOptions { cfg, no_tray: true, console: false, show_settings: false, wants_output: true }
}

/// Tray with a console beside it, settings as given.
pub open spec fn tray_with_console(cfg: Config) -> RunOptions {
    RunOptions { cfg, no_tray: false, console: true, show_settings: false, wants_output: true }
}

/// Tray with the settings window open at the start, settings as given.
pub open spec fn tray_with_settings(cfg: Config) -> RunOptions {
    RunOptions { cfg, no_tray: false, console: false, show_settings: true, wants_output: false }
}

/// The option names are pairwise different.
proof fn lemma_option_names()
    ensures
        "-h"@ != "--help"@,
        "-h"@ != "--no-tray"@,
        "-h"@ != "--console"@,
        "-h"@ != "--brightness-50"@,
        "-h"@ != "--brightness-15"@,
        "-h"@ != "--lang"@,
        "-h"@ != "--show-settings"@,
        "-h"@ != "--no-display"@,
        "-h"@ != "--no-away"@,
        "-h"@ != "--no-jiggle"@,
        "-h"@ != "--paused"@,
        "-h"@ != "--interval"@,
        "-h"@ != "--jiggle-interval"@,
        "--help"@ != "--no-tray"@,
        "--help"@ != "--console"@,
        "--help"@ != "--brightness-50"@,
        "--help"@ != "--brightness-15"@,
        "--help"@ != "--lang"@,
        "--help"@ != "--show-settings"@,
        "--help"@ != "--no-display"@,
        "--help"@ != "--no-away"@,
        "--help"@ != "--no-jiggle"@,
        "--help"@ != "--paused"@,
        "--help"@ != "--interval"@,
        "--help"@ != "--jiggle-interval"@,
        "--no-tray"@ != "--console"@,
        "--no-tray"@ != "--brightness-50"@,
        "--no-tray"@ != "--brightness-15"@,
        "--no-tray"@ != "--lang"@,
        "--no-tray"@ != "--show-settings"@,
        "--no-tray"@ != "--no-display"@,
        "--no-tray"@ != "--no-away"@,
        "--no-tray"@ != "--no-jiggle"@,
        "--no-tray"@ != "--paused"@,
        "--no-tray"@ != "--interval"@,
        "--no-tray"@ != "--jiggle-interval"@,
        "--console"@ != "--brightness-50"@,
        "--console"@ != "--brightness-15"@,
        "--console"@ != "--lang"@,
        "--console"@ != "--show-settings"@,
        "--console"@ != "--no-display"@,
        "--console"@ != "--no-away"@,
        "--console"@ != "--no-jiggle"@,
        "--console"@ != "--paused"@,
        "--console"@ != "--interval"@,
        "--console"@ != "--jiggle-interval"@,
        "--brightness-50"@ != "--brightness-15"@,
        "--brightness-50"@ != "--lang"@,
        "--brightness-50"@ != "--show-settings"@,
        "--brightness-50"@ != "--no-display"@,
        "--brightness-50"@ != "--no-away"@,
        "--brightness-50"@ != "--no-jiggle"@,
        "--brightness-50"@ != "--paused"@,
        "--brightness-50"@ != "--interval"@,
        "--brightness-50"@ != "--jiggle-interval"@,
        "--brightness-15"@ != "--lang"@,
        "--brightness-15"@ != "--show-settings"@,
        "--brightness-15"@ != "--no-display"@,
        "--brightness-15"@ != "--no-away"@,
        "--brightness-15"@ != "--no-jiggle"@,
        "--brightness-15"@ != "--paused"@,
        "--brightness-15"@ != "--interval"@,
        "--brightness-15"@ != "--jiggle-interval"@,
        "--lang"@ != "--show-settings"@,
        "--lang"@ != "--no-display"@,
        "--lang"@ != "--no-away"@,
        "--lang"@ != "--no-jiggle"@,
        "--lang"@ != "--paused"@,
        "--lang"@ != "--interval"@,
        "--lang"@ != "--jiggle-interval"@,
        "--show-settings"@ != "--no-display"@,
        "--show-settings"@ != "--no-away"@,
        "--show-settings"@ != "--no-jiggle"@,
        "--show-settings"@ != "--paused"@,
        "--show-settings"@ != "--interval"@,
        "--show-settings"@ != "--jiggle-interval"@,
        "--no-display"@ != "--no-away"@,
        "--no-display"@ != "--no-jiggle"@,
        "--no-display"@ != "--paused"@,
        "--no-display"@ != "--interval"@,
        "--no-display"@ != "--jiggle-interval"@,
        "--no-away"@ != "--no-jiggle"@,
        "--no-away"@ != "--paused"@,
        "--no-away"@ != "--interval"@,
        "--no-away"@ != "--jiggle-interval"@,
        "--no-jiggle"@ != "--paused"@,
        "--no-jiggle"@ != "--interval"@,
        "--no-jiggle"@ != "--jiggle-interval"@,
        "--paused"@ != "--interval"@,
        "--paused"@ != "--jiggle-interval"@,
        "--interval"@ != "--jiggle-interval"@,
{
    reveal_strlit("-h");
    reveal_strlit("--help");
    reveal_strlit("--no-tray");
    reveal_strlit("--console");
    reveal_strlit("--brightness-50");
    reveal_strlit("--brightness-15");
    reveal_strlit("--lang");
    reveal_strlit("--show-settings");
    reveal_strlit("--no-display");
    reveal_strlit("--no-away");
    reveal_strlit("--no-jiggle");
    reveal_strlit("--paused");
    reveal_strlit("--interval");
    reveal_strlit("--jiggle-interval");
    assert("-h"@.len() != "--help"@.len());
    assert("-h"@.len() != "--no-tray"@.len());
    assert("-h"@.len() != "--console"@.len());
    assert("-h"@.len() != "--brightness-50"@.len());
    assert("-h"@.len() != "--brightness-15"@.len());
    assert("-h"@.len() != "--lang"@.len());
    assert("-h"@.len() != "--show-settings"@.len());
    assert("-h"@.len() != "--no-display"@.len());
    assert("-h"@.len() != "--no-away"@.len());
    assert("-h"@.len() != "--no-jiggle"@.len());
    assert("-h"@.len() != "--paused"@.len());
    assert("-h"@.len() != "--interval"@.len());
    assert("-h"@.len() != "--jiggle-interval"@.len());
    assert("--help"@.len() != "--no-tray"@.len());
    assert("--help"@.len() != "--console"@.len());
    assert("--help"@.len() != "--brightness-50"@.len());
    assert("--help"@.len() != "--brightness-15"@.len());
    assert("--help"@[2] != "--lang"@[2]);
    assert("--help"@.len() != "--show-settings"@.len());
    assert("--help"@.len() != "--no-display"@.len());
    assert("--help"@.len() != "--no-away"@.len());
    assert("--help"@.len() != "--no-jiggle"@.len());
    assert("--help"@.len() != "--paused"@.len());
    assert("--help"@.len() != "--interval"@.len());
    assert("--help"@.len() != "--jiggle-interval"@.len());
    assert("--no-tray"@[2] != "--console"@[2]);
    assert("--no-tray"@.len() != "--brightness-50"@.len());
    assert("--no-tray"@.len() != "--brightness-15"@.len());
    assert("--no-tray"@.len() != "--lang"@.len());
    assert("--no-tray"@.len() != "--show-settings"@.len());
    assert("--no-tray"@.len() != "--no-display"@.len());
    assert("--no-tray"@[5] != "--no-away"@[5]);
    assert("--no-tray"@.len() != "--no-jiggle"@.len());
    assert("--no-tray"@.len() != "--paused"@.len());
    assert("--no-tray"@.len() != "--interval"@.len());
    assert("--no-tray"@.len() != "--jiggle-interval"@.len());
    assert("--console"@.len() != "--brightness-50"@.len());
    assert("--console"@.len() != "--brightness-15"@.len());
    assert("--console"@.len() != "--lang"@.len());
    assert("--console"@.len() != "--show-settings"@.len());
    assert("--console"@.len() != "--no-display"@.len());
    assert("--console"@[2] != "--no-away"@[2]);
    assert("--console"@.len() != "--no-jiggle"@.len());
    assert("--console"@.len() != "--paused"@.len());
    assert("--console"@.len() != "--interval"@.len());
    assert("--console"@.len() != "--jiggle-interval"@.len());
    assert("--brightness-50"@[13] != "--brightness-15"@[13]);
    assert("--brightness-50"@.len() != "--lang"@.len());
    assert("--brightness-50"@[2] != "--show-settings"@[2]);
    assert("--brightness-50"@.len() != "--no-display"@.len());
    assert("--brightness-50"@.len() != "--no-away"@.len());
    assert("--brightness-50"@.len() != "--no-jiggle"@.len());
    assert("--brightness-50"@.len() != "--paused"@.len());
    assert("--brightness-50"@.len() != "--interval"@.len());
    assert("--brightness-50"@.len() != "--jiggle-interval"@.len());
    assert("--brightness-15"@.len() != "--lang"@.len());
    assert("--brightness-15"@[2] != "--show-settings"@[2]);
    assert("--brightness-15"@.len() != "--no-display"@.len());
    assert("--brightness-15"@.len() != "--no-away"@.len());
    assert("--brightness-15"@.len() != "--no-jiggle"@.len());
    assert("--brightness-15"@.len() != "--paused"@.len());
    assert("--brightness-15"@.len() != "--interval"@.len());
    assert("--brightness-15"@.len() != "--jiggle-interval"@.len());
    assert("--lang"@.len() != "--show-settings"@.len());
    assert("--lang"@.len() != "--no-display"@.len());
    assert("--lang"@.len() != "--no-away"@.len());
    assert("--lang"@.len() != "--no-jiggle"@.len());
    assert("--lang"@.len() != "--paused"@.len());
    assert("--lang"@.len() != "--interval"@.len());
    assert("--lang"@.len() != "--jiggle-interval"@.len());
    assert("--show-settings"@.len() != "--no-display"@.len());
    assert("--show-settings"@.len() != "--no-away"@.len());
    assert("--show-settings"@.len() != "--no-jiggle"@.len());
    assert("--show-settings"@.len() != "--paused"@.len());
    assert("--show-settings"@.len() != "--interval"@.len());
    assert("--show-settings"@.len() != "--jiggle-interval"@.len());
    assert("--no-display"@.len() != "--no-away"@.len());
    assert("--no-display"@.len() != "--no-jiggle"@.len());
    assert("--no-display"@.len() != "--paused"@.len());
    assert("--no-display"@.len() != "--interval"@.len());
    assert("--no-display"@.len() != "--jiggle-interval"@.len());
    assert("--no-away"@.len() != "--no-jiggle"@.len());
    assert("--no-away"@.len() != "--paused"@.len());
    assert("--no-away"@.len() != "--interval"@.len());
    assert("--no-away"@.len() != "--jiggle-interval"@.len());
    assert("--no-jiggle"@.len() != "--paused"@.len());
    assert("--no-jiggle"@.len() != "--interval"@.len());
    assert("--no-jiggle"@.len() != "--jiggle-interval"@.len());
    assert("--paused"@.len() != "--interval"@.len());
    assert("--paused"@.len() != "--jiggle-interval"@.len());
    assert("--interval"@.len() != "--jiggle-interval"@.len());
}

/// What the argument `a[..]` at index `i` does to the options `o`, with the
/// next argument `value` where `has_value`; and whether it consumes that
/// next argument.
#[verifier::rlimit(60)]
fn read_arg(a: &Vec<char>, has_value: bool, value: &Vec<char>, o: RunOptions, i: usize) -> (r: (
    ArgEffect,
    bool,
))
    ensures
        r.0 == arg_effect(
            a@,
            if has_value {
                Some(value@)
            } else {
                None
            },
            o,
            i as int,
        ),
        r.1 == takes_value(a@),
{
    reveal(arg_effect);
    let k = a.len();
    let m = value.len();
    assert(a@.subrange(0, k as int) =~= a@);
    assert(value@.subrange(0, m as int) =~= value@);
    let wide = range_eq(a, 0, k, "--lang") || range_eq(a, 0, k, "--interval") || range_eq(
        a,
        0,
        k,
        "--jiggle-interval",
    );
    let mut o = o;
    if range_eq(a, 0, k, "-h") || range_eq(a, 0, k, "--help") {
        (ArgEffect::Stop(Command::Help), wide)
    } else if range_eq(a, 0, k, "--no-tray") {
        o.no_tray = true;
        o.wants_output = true;
        (ArgEffect::Continue(o), wide)
    } else if range_eq(a, 0, k, "--console") {
        o.console = true;
        o.wants_output = true;
        (ArgEffect::Continue(o), wide)
    } else if range_eq(a, 0, k, "--brightness-50") {
        (ArgEffect::Stop(Command::Brightness { level: 50, lang: o.cfg.lang }), wide)
    } else if range_eq(a, 0, k, "--brightness-15") {
        (ArgEffect::Stop(Command::Brightness { level: 15, lang: o.cfg.lang }), wide)
    } else if range_eq(a, 0, k, "--lang") {
        if has_value {
            o.cfg.lang = lang_from_range(value, 0, m);
        }
        (ArgEffect::Continue(o), wide)
    } else if range_eq(a, 0, k, "--show-settings") {
        o.show_settings = true;
        (ArgEffect::Continue(o), wide)
    } else if range_eq(a, 0, k, "--no-display") {
        o.cfg.display = false;
        (ArgEffect::Continue(o), wide)
    } else if range_eq(a, 0, k, "--no-away") {
        o.cfg.away = false;
        (ArgEffect::Continue(o), wide)
    } else if range_eq(a, 0, k, "--no-jiggle") {
        o.cfg.jiggle = false;
        (ArgEffect::Continue(o), wide)
    } else if range_eq(a, 0, k, "--paused") {
        o.cfg.enabled = false;
        (ArgEffect::Continue(o), wide)
    } else if range_eq(a, 0, k, "--interval") {
        if has_value {
            if let Some(v) = parse_u64_range(value, 0, m) {
                o.cfg.interval = clamp_u64(v, MIN_INTERVAL, MAX_INTERVAL);
            }
        }
        (ArgEffect::Continue(o), wide)
    } else if range_eq(a, 0, k, "--jiggle-interval") {
        if has_value {
            if let Some(v) = parse_u64_range(value, 0, m) {
                o.cfg.jiggle_interval = clamp_u64(v, MIN_JIGGLE_INTERVAL, MAX_JIGGLE_INTERVAL);
            }
        }
        (ArgEffect::Continue(o), wide)
    } else {
        (ArgEffect::Stop(Command::Unknown { index: i }), wide)
    }
}

/// Reads the command line `args` (the program's name first) over the
/// settings `cfg` read from the file.
pub fn parse_args(args: &Vec<String>, cfg: Config) -> (r: Command)
    ensures
        r == command_spec(args@, cfg),
{
    let ghost av = args_view(args@);
    let mut o = RunOptions {
        cfg,
        no_tray: false,
        console: false,
        show_settings: false,
        wants_output: false,
    };
    let n = args.len();
    if n == 0 {
        return Command::Run(o);
    }
    let mut i: usize = 1;
    while i < n
        invariant
            n == args.len(),
            av == args_view(args@),
            av.len() == n,
            1 <= i <= n,
            parse_from(av, i as int, o) == command_spec(args@, cfg),
        decreases n - i,
    {
        let a = chars_of(args[i].as_str());
        let has_value = i + 1 < n;
        let value = if has_value {
            chars_of(args[i + 1].as_str())
        } else {
            Vec::new()
        };
        assert(av[i as int] == a@);
        assert(has_value ==> av[i + 1] == value@);
        let (effect, wide) = read_arg(&a, has_value, &value, o, i);
        assert(value_after(av, i as int) == (if has_value {
            Some(value@)
        } else {
            None::<Seq<char>>
        }));
        let ghost i0 = i as int;
        let ghost o0 = o;
        assert(parse_from(av, i0, o0) == match arg_effect(av[i0], value_after(av, i0), o0, i0) {
            ArgEffect::Stop(c) => c,
            ArgEffect::Continue(o2) => parse_from(av, i0 + arg_width(av[i0]), o2),
        });
        match effect {
            ArgEffect::Stop(c) => {
                return c;
            },
            ArgEffect::Continue(o2) => {
                o = o2;
                if wide && i + 1 < n {
                    i = i + 2;
                } else if wide {
                    i = n;
                    assert(parse_from(av, i0 + 2, o2) == Command::Run(o2));
                } else {
                    i = i + 1;
                }
            },
        }
    }
    Command::Run(o)
}

} // verus!
