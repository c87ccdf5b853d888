use keepawake::cli::{parse_args, Command, RunOptions};
use keepawake::config::Config;
use keepawake::lang::Lang;

fn args(list: &[&str]) -> Vec<String> {
    let mut v = vec!["keepawake.exe".to_string()];
    v.extend(list.iter().map(|s| s.to_string()));
    v
}

fn run(cfg: Config) -> Command {
    Command::Run(RunOptions { cfg, no_tray: false, console: false, show_settings: false, wants_output: false })
}

#[test]
fn no_arguments_runs_the_tray() {
    assert_eq!(parse_args(&args(&[]), Config::default()), run(Config::default()));
    assert_eq!(parse_args(&vec![], Config::default()), run(Config::default()));
}

#[test]
fn help_stops_reading() {
    assert_eq!(parse_args(&args(&["-h"]), Config::default()), Command::Help);
    assert_eq!(parse_args(&args(&["--paused", "--help", "--bogus"]), Config::default()), Command::Help);
}

#[test]
fn unknown_argument_is_reported_by_index() {
    assert_eq!(parse_args(&args(&["--paused", "--bogus", "-h"]), Config::default()), Command::Unknown { index: 2 });
    assert_eq!(parse_args(&args(&["HELP"]), Config::default()), Command::Unknown { index: 1 });
}

#[test]
fn brightness_uses_the_language_so_far() {
    assert_eq!(
        parse_args(&args(&["--lang", "en", "--brightness-50", "--lang", "cn"]), Config::default()),
        Command::Brightness { level: 50, lang: Lang::En }
    );
    assert_eq!(
        parse_args(&args(&["--brightness-15"]), Config::default()),
        Command::Brightness { level: 15, lang: Lang::Cn }
    );
}

#[test]
fn switches_change_the_settings() {
    let got = parse_args(&args(&["--no-display", "--no-away", "--no-jiggle", "--paused", "--show-settings"]), Config::default());
    assert_eq!(
        got,
        Command::Run(RunOptions {
            cfg: Config { enabled: false, display: false, away: false, jiggle: false, ..Config::default() },
            no_tray: false,
            console: false,
            show_settings: true,
            wants_output: false,
        })
    );
}

#[test]
fn console_modes_want_output() {
    let got = parse_args(&args(&["--no-tray"]), Config::default());
    assert_eq!(
        got,
        Command::Run(RunOptions { cfg: Config::default(), no_tray: true, console: false, show_settings: false, wants_output: true })
    );
    let got = parse_args(&args(&["--console"]), Config::default());
    assert_eq!(
        got,
        Command::Run(RunOptions { cfg: Config::default(), no_tray: false, console: true, show_settings: false, wants_output: true })
    );
}

#[test]
fn cli_intervals_are_clamped() {
    let got = parse_args(&args(&["--interval", "1", "--jiggle-interval", "100000"]), Config::default());
    assert_eq!(got, run(Config { interval: 5, jiggle_interval: 3600, ..Config::default() }));
    let got = parse_args(&args(&["--interval", "120", "--jiggle-interval", "60"]), Config::default());
    assert_eq!(got, run(Config { interval: 120, jiggle_interval: 60, ..Config::default() }));
}

#[test]
fn invalid_value_is_consumed_and_ignored() {
    let got = parse_args(&args(&["--interval", "--paused"]), Config::default());
    assert_eq!(got, run(Config::default()));
    let got = parse_args(&args(&["--interval"]), Config::default());
    assert_eq!(got, run(Config::default()));
    let got = parse_args(&args(&["--lang"]), Config { lang: Lang::En, ..Config::default() });
    assert_eq!(got, run(Config { lang: Lang::En, ..Config::default() }));
}

#[test]
fn lang_value_is_read_loosely() {
    let got = parse_args(&args(&["--lang", "EN"]), Config::default());
    assert_eq!(got, run(Config { lang: Lang::En, ..Config::default() }));
    let got = parse_args(&args(&["--lang", "fr"]), Config { lang: Lang::En, ..Config::default() });
    assert_eq!(got, run(Config::default()));
}
