use keepawake::config::Config;
use keepawake::lang::Lang;
use keepawake::power::AwakeAction;
use keepawake::status::Shared;

#[test]
fn running_texts_in_chinese() {
    let s = Shared::new(Config::default());
    assert_eq!(s.status, "状态：运行中 [防睡眠+常亮+保网络+F15防锁屏]  刷新30s / 心跳240s");
    assert_eq!(s.tip, "no-sleep-agent 运行中 [防睡眠+常亮+保网络+F15防锁屏]");
    assert_eq!(s.seq, 0);
    assert!(s.balloon.is_none());
}

#[test]
fn running_texts_in_english_with_some_parts_off() {
    let cfg = Config { display: false, jiggle: false, lang: Lang::En, interval: 5, ..Config::default() };
    let s = Shared::new(cfg);
    assert_eq!(s.status, "Running [anti-sleep+keep-network]  refresh 5s / heartbeat 240s");
    assert_eq!(s.tip, "no-sleep-agent running [anti-sleep+keep-network]");
}

#[test]
fn paused_texts() {
    let s = Shared::new(Config { enabled: false, ..Config::default() });
    assert_eq!(s.status, "状态：已暂停（右键托盘 → 启用保持 可恢复）");
    assert_eq!(s.tip, "no-sleep-agent 已暂停");
    let s = Shared::new(Config { enabled: false, lang: Lang::En, ..Config::default() });
    assert_eq!(s.status, "Paused (right-click tray → Enable to resume)");
    assert_eq!(s.tip, "no-sleep-agent paused");
}

#[test]
fn default_shared_state() {
    let s = Shared::default();
    assert_eq!(s.cfg, Config::default());
    assert_eq!(s.status, Shared::new(Config::default()).status);
}

#[test]
fn refresh_note_is_appended() {
    let mut s = Shared::new(Config { lang: Lang::En, ..Config::default() });
    let before = s.status.clone();
    s.note_refresh("12:00:00");
    assert_eq!(s.status, format!("{}  （12:00:00 刷新）", before));
    assert_eq!(s.seq, 1);
}

#[test]
fn heartbeat_note_is_appended_until_the_line_is_too_long() {
    let mut s = Shared::new(Config::default());
    let base = s.status.clone();
    s.note_heartbeat("01:02:03");
    assert_eq!(s.status, format!("{}  （01:02:03 F15心跳）", base));
    let mut n = 1;
    while s.status.len() <= 400 - 30 {
        s.note_heartbeat("01:02:03");
        n += 1;
    }
    loop {
        let noted = format!("{}  （01:02:03 F15心跳）", s.status);
        s.note_heartbeat("01:02:03");
        n += 1;
        if noted.len() > 400 {
            assert_eq!(s.status, base);
            break;
        } else {
            assert_eq!(s.status, noted);
        }
    }
    assert_eq!(s.seq, n);
}

#[test]
fn apply_config_reports_the_power_action() {
    let mut s = Shared::new(Config::default());
    let off = Config { enabled: false, ..Config::default() };
    assert_eq!(s.apply_config(off), AwakeAction::Release);
    assert_eq!(s.cfg, off);
    assert_eq!(s.status, "状态：已暂停（右键托盘 → 启用保持 可恢复）");
    assert_eq!(s.apply_config(off), AwakeAction::Keep);
    let on = Config { display: false, ..Config::default() };
    assert_eq!(s.apply_config(on), AwakeAction::Request { display: false, away: true });
    assert_eq!(s.seq, 3);
}

#[test]
fn toggling_twice_restores_everything() {
    let mut s = Shared::new(Config { lang: Lang::En, ..Config::default() });
    let (cfg, status, tip) = (s.cfg, s.status.clone(), s.tip.clone());
    assert_eq!(s.toggle_enabled(), AwakeAction::Release);
    assert!(!s.cfg.enabled);
    assert_eq!(s.toggle_enabled(), AwakeAction::Request { display: true, away: true });
    assert_eq!((s.cfg, s.status.clone(), s.tip.clone()), (cfg, status, tip));
    assert_eq!(s.seq, 2);
}

#[test]
fn language_switch_rewrites_texts() {
    let mut s = Shared::new(Config::default());
    s.set_lang(Lang::En);
    assert_eq!(s.cfg.lang, Lang::En);
    assert_eq!(s.tip, "no-sleep-agent running [anti-sleep+display-on+keep-network+F15 anti-lock]");
    assert_eq!(s.seq, 1);
}

#[test]
fn balloon_is_left_for_the_interface() {
    let mut s = Shared::new(Config::default());
    s.post_balloon("T".to_string(), "M".to_string());
    assert_eq!(s.balloon, Some(("T".to_string(), "M".to_string())));
    assert_eq!(s.seq, 1);
}

#[test]
fn refresh_notes_start_over_past_the_limit() {
    let mut s = Shared::new(Config { jiggle: false, ..Config::default() });
    let base = s.status.clone();
    let mut n = 0;
    for _ in 0..100 {
        let noted = format!("{}  （12:34:56 刷新）", s.status);
        s.note_refresh("12:34:56");
        n += 1;
        if noted.len() > 400 {
            assert_eq!(s.status, base);
        } else {
            assert_eq!(s.status, noted);
        }
        assert!(s.status.len() <= 400);
    }
    assert_eq!(s.seq, n);
}

#[test]
fn longest_texts_fit_the_limit() {
    for lang in [Lang::Cn, Lang::En] {
        let cfg = Config { interval: u64::MAX, jiggle_interval: u64::MAX, lang, ..Config::default() };
        let s = Shared::new(cfg);
        assert!(s.status.len() <= 400);
        assert!(s.tip.len() <= 400);
    }
}
