use keepawake::lang::{tr, Lang};

#[test]
fn lang_parse_reads_en_in_any_case() {
    assert_eq!(Lang::parse("en"), Lang::En);
    assert_eq!(Lang::parse(" EN\r"), Lang::En);
    assert_eq!(Lang::parse("eN"), Lang::En);
    assert_eq!(Lang::parse("cn"), Lang::Cn);
    assert_eq!(Lang::parse("english"), Lang::Cn);
    assert_eq!(Lang::parse(""), Lang::Cn);
    assert_eq!(Lang::parse("e n"), Lang::Cn);
}

#[test]
fn lang_code_reads_back() {
    assert_eq!(Lang::Cn.code(), "cn");
    assert_eq!(Lang::En.code(), "en");
    assert_eq!(Lang::parse(Lang::En.code()), Lang::En);
    assert_eq!(Lang::parse(Lang::Cn.code()), Lang::Cn);
}

#[test]
fn tr_gives_texts_per_language() {
    assert_eq!(tr(Lang::Cn, "win_title"), "No-Sleep-Agent 设置");
    assert_eq!(tr(Lang::En, "win_title"), "No-Sleep-Agent Settings");
    assert_eq!(tr(Lang::Cn, "btn_ok"), "确定");
    assert_eq!(tr(Lang::En, "btn_ok"), "OK");
    assert_eq!(tr(Lang::En, "fatal_gui"), "GUI init failed: ");
    assert_eq!(tr(Lang::Cn, "bri_scheme"), "系统电源方案");
}

#[test]
fn tr_shared_texts_are_the_same_in_both_languages() {
    assert_eq!(tr(Lang::Cn, "app_title"), "No-Sleep-Agent-Tray");
    assert_eq!(tr(Lang::En, "app_title"), "No-Sleep-Agent-Tray");
    assert_eq!(tr(Lang::Cn, "chk_english"), "英文界面 / English UI");
    assert_eq!(tr(Lang::En, "chk_english"), "英文界面 / English UI");
}

#[test]
fn tr_unknown_key_is_marked_missing() {
    assert_eq!(tr(Lang::Cn, "nope"), "[missing text]");
    assert_eq!(tr(Lang::En, ""), "[missing text]");
    assert_eq!(tr(Lang::En, "WIN_TITLE"), "[missing text]");
}
