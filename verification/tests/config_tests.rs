use keepawake::config::{config_text, parse_config, Config};
use keepawake::lang::Lang;

fn sample() -> Config {
    Config {
        enabled: false,
        display: true,
        away: false,
        jiggle: true,
        interval: 45,
        jiggle_interval: 300,
        lang: Lang::En,
    }
}

#[test]
fn default_config_values() {
    let c = Config::default();
    assert!(c.enabled && c.display && c.away && c.jiggle);
    assert_eq!(c.interval, 30);
    assert_eq!(c.jiggle_interval, 240);
    assert_eq!(c.lang, Lang::Cn);
}

#[test]
fn empty_file_gives_defaults() {
    assert_eq!(parse_config(""), Config::default());
    assert_eq!(parse_config("\n\n  \n"), Config::default());
}

#[test]
fn entries_override_defaults() {
    let c = parse_config("enabled=0\naway = 0\ninterval= 45 \njiggle_interval=300\nlang=en\n");
    assert_eq!(
        c,
        Config { enabled: false, away: false, interval: 45, jiggle_interval: 300, lang: Lang::En, ..Config::default() }
    );
}

#[test]
fn flags_are_on_only_for_one() {
    let c = parse_config("enabled=yes\ndisplay=1\njiggle=true");
    assert!(!c.enabled);
    assert!(c.display);
    assert!(!c.jiggle);
}

#[test]
fn comments_and_junk_lines_are_ignored() {
    let text = "# enabled=0\n; display=0\nno equals here\nunknown=1\n=5\n  # away=0\njiggle=0";
    let c = parse_config(text);
    assert_eq!(c, Config { jiggle: false, ..Config::default() });
}

#[test]
fn crlf_line_ends_are_read() {
    let c = parse_config("enabled=0\r\ninterval=100\r\nlang=en\r\n");
    assert_eq!(c, Config { enabled: false, interval: 100, lang: Lang::En, ..Config::default() });
}

#[test]
fn intervals_are_clamped() {
    let c = parse_config("interval=1\njiggle_interval=99999");
    assert_eq!(c.interval, 5);
    assert_eq!(c.jiggle_interval, 3600);
    let c = parse_config("interval=601\njiggle_interval=0");
    assert_eq!(c.interval, 600);
    assert_eq!(c.jiggle_interval, 30);
}

#[test]
fn invalid_numbers_leave_the_value() {
    let c = parse_config("interval=abc\njiggle_interval=-5\ninterval=+50");
    assert_eq!(c.interval, 50);
    assert_eq!(c.jiggle_interval, 240);
    let c = parse_config("interval=99999999999999999999999");
    assert_eq!(c.interval, 30);
}

#[test]
fn value_after_first_equals_sign() {
    let c = parse_config("lang=en=x\ninterval=1=2");
    assert_eq!(c.lang, Lang::Cn);
    assert_eq!(c.interval, 30);
}

#[test]
fn later_lines_win() {
    let c = parse_config("interval=10\ninterval=20");
    assert_eq!(c.interval, 20);
}

#[test]
fn config_text_is_exact() {
    let text = config_text(&sample());
    assert_eq!(
        text,
        "# no-sleep-agent-tray 配置（设置窗口修改后自动保存）\nenabled=0\ndisplay=1\naway=0\njiggle=1\ninterval=45\njiggle_interval=300\nlang=en\n"
    );
}

#[test]
fn save_then_load_gives_the_settings_back() {
    for cfg in [sample(), Config::default(), Config { lang: Lang::Cn, display: false, ..sample() }] {
        assert_eq!(parse_config(&config_text(&cfg)), cfg);
    }
}

#[test]
fn save_then_load_clamps_out_of_range_intervals() {
    let cfg = Config { interval: 0, jiggle_interval: u64::MAX, ..sample() };
    let back = parse_config(&config_text(&cfg));
    assert_eq!(back, Config { interval: 5, jiggle_interval: 3600, ..sample() });
}
