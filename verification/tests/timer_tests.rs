use keepawake::config::Config;
use keepawake::lang::Lang;
use keepawake::timer::{console_policy_line, ConsoleTimer, Timer, TimerAction};

#[test]
fn refresh_and_heartbeat_follow_their_intervals() {
    let cfg = Config { interval: 5, jiggle_interval: 30, ..Config::default() };
    let mut t = Timer::new();
    for n in 1..=120u64 {
        let a = t.step(cfg);
        assert_eq!(a.refresh, n % 5 == 0, "second {}", n);
        assert_eq!(a.heartbeat, n % 30 == 0, "second {}", n);
    }
}

#[test]
fn nothing_happens_while_paused() {
    let cfg = Config { enabled: false, ..Config::default() };
    let mut t = Timer::new();
    for _ in 0..100 {
        assert_eq!(t.step(cfg), TimerAction { refresh: false, heartbeat: false });
    }
    assert_eq!(t.tick, 0);
}

#[test]
fn no_heartbeat_without_jiggle() {
    let cfg = Config { jiggle: false, interval: 5, jiggle_interval: 30, ..Config::default() };
    let mut t = Timer::new();
    for _ in 0..100 {
        assert!(!t.step(cfg).heartbeat);
    }
}

#[test]
fn a_change_of_settings_restarts_the_counts() {
    let cfg = Config { interval: 5, jiggle_interval: 30, ..Config::default() };
    let mut t = Timer::new();
    for _ in 0..3 {
        t.step(cfg);
    }
    let cfg2 = Config { interval: 6, ..cfg };
    for n in 1..=12u64 {
        assert_eq!(t.step(cfg2).refresh, n % 6 == 0);
    }
}

#[test]
fn a_language_change_does_not_restart() {
    let cfg = Config { interval: 5, jiggle_interval: 30, ..Config::default() };
    let mut t = Timer::new();
    for _ in 0..3 {
        t.step(cfg);
    }
    let cfg2 = Config { lang: Lang::En, ..cfg };
    assert!(!t.step(cfg2).refresh);
    assert!(t.step(cfg2).refresh);
}

#[test]
fn console_timer_beats_when_the_sum_reaches_the_heartbeat() {
    let cfg = Config { interval: 100, jiggle_interval: 250, ..Config::default() };
    let mut t = ConsoleTimer::new();
    assert_eq!(t.step(&cfg), TimerAction { refresh: true, heartbeat: false });
    assert_eq!(t.step(&cfg), TimerAction { refresh: true, heartbeat: false });
    assert_eq!(t.step(&cfg), TimerAction { refresh: true, heartbeat: true });
    assert_eq!(t.elapsed, 0);
    let paused = Config { enabled: false, ..cfg };
    assert_eq!(t.step(&paused), TimerAction { refresh: false, heartbeat: false });
}

#[test]
fn console_policy_lines() {
    assert_eq!(
        console_policy_line(&Config::default()),
        "策略: 常亮 + 保网络 + F15 240s，刷新30s / refresh 30s"
    );
    let cfg = Config { display: false, away: false, jiggle: false, lang: Lang::En, interval: 60, ..Config::default() };
    assert_eq!(
        console_policy_line(&cfg),
        "Policy: display may sleep + no AwayMode + no key，刷新60s / refresh 60s"
    );
}

#[test]
fn paused_timer_asks_for_nothing_even_with_zero_intervals() {
    let cfg = Config { enabled: false, interval: 0, jiggle_interval: 0, ..Config::default() };
    let mut t = Timer::new();
    for _ in 0..10 {
        assert_eq!(t.step(cfg), TimerAction { refresh: false, heartbeat: false });
    }
}

#[test]
fn zero_heartbeat_interval_presses_every_second() {
    let cfg = Config { interval: 7, jiggle_interval: 0, ..Config::default() };
    let mut t = Timer::new();
    for n in 1..=20u64 {
        let a = t.step(cfg);
        assert!(a.heartbeat);
        assert_eq!(a.refresh, n % 7 == 0);
    }
}

#[test]
fn console_start_request_follows_enabled() {
    assert!(ConsoleTimer::start(&Config::default()));
    assert!(!ConsoleTimer::start(&Config { enabled: false, ..Config::default() }));
}
