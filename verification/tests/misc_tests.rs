use keepawake::clock::{stamp, stamp_at};
use keepawake::config::Config;
use keepawake::lang::Lang;
use keepawake::power::{awake_flags, ES_CONTINUOUS};
use keepawake::settings::{autostart_command, InputError, SettingsForm};

#[test]
fn stamps_are_beijing_time() {
    assert_eq!(stamp_at(0), "08:00:00");
    assert_eq!(stamp_at(16 * 3600 - 1), "23:59:59");
    assert_eq!(stamp_at(16 * 3600), "00:00:00");
    assert_eq!(stamp_at(1_700_000_000), "06:13:20");
    assert_eq!(stamp_at(u64::MAX), "15:00:15");
}

#[test]
fn stamp_now_has_the_shape() {
    let s = stamp();
    assert_eq!(s.len(), 8);
    assert_eq!(&s[2..3], ":");
    assert_eq!(&s[5..6], ":");
}

#[test]
fn awake_flag_values() {
    assert_eq!(awake_flags(false, false), 0x8000_0001);
    assert_eq!(awake_flags(true, false), 0x8000_0003);
    assert_eq!(awake_flags(false, true), 0x8000_0041);
    assert_eq!(awake_flags(true, true), 0x8000_0043);
    assert_eq!(awake_flags(false, false) & ES_CONTINUOUS, ES_CONTINUOUS);
}

fn form(interval: &str, jiggle: &str) -> SettingsForm {
    SettingsForm {
        enabled: true,
        display: false,
        away: true,
        jiggle: false,
        interval_text: interval.to_string(),
        jiggle_text: jiggle.to_string(),
    }
}

#[test]
fn settings_form_is_checked() {
    assert_eq!(
        form(" 60 ", "120").to_config(Lang::En),
        Ok(Config { enabled: true, display: false, away: true, jiggle: false, interval: 60, jiggle_interval: 120, lang: Lang::En })
    );
    assert_eq!(form("5", "3600").to_config(Lang::Cn).map(|c| (c.interval, c.jiggle_interval)), Ok((5, 3600)));
    assert_eq!(form("4", "120").to_config(Lang::Cn), Err(InputError::Interval));
    assert_eq!(form("601", "x").to_config(Lang::Cn), Err(InputError::Interval));
    assert_eq!(form("abc", "120").to_config(Lang::Cn), Err(InputError::Interval));
    assert_eq!(form("60", "29").to_config(Lang::Cn), Err(InputError::Heartbeat));
    assert_eq!(form("60", "").to_config(Lang::Cn), Err(InputError::Heartbeat));
}

#[test]
fn autostart_command_quotes_the_path() {
    assert_eq!(autostart_command(r"C:\Program Files\keepawake.exe"), "\"C:\\Program Files\\keepawake.exe\"");
    assert_eq!(autostart_command(""), "\"\"");
}
