//! The interface language and the table of interface texts.

use vstd::prelude::*;

use crate::text::{chars_of, range_eq, trim, trim_end, trim_range, trim_start};

verus! {

/// The interface language.
#[derive(Clone, Copy, Debug, PartialEq, Eq, Structural)]
pub enum Lang {
    Cn,
    En,
}

/// The language that a `--lang` value or a `lang=` entry names: English
/// when the value, trimmed, is `en` in any letter case, else Chinese.
pub open spec fn lang_of(s: Seq<char>) -> Lang {
    let t = trim(s);
    if t.len() == 2 && (t[0] == 'e' || t[0] == 'E') && (t[1] == 'n' || t[1] == 'N') {
        Lang::En
    } else {
        Lang::Cn
    }
}

/// The code under which a language is saved.
pub open spec fn lang_code(l: Lang) -> Seq<char> {
    match l {
        Lang::Cn => "cn"@,
        Lang::En => "en"@,
    }
}

/// A saved language code reads back as that language.
pub proof fn lemma_lang_code_round_trip(l: Lang)
    ensures
        lang_of(lang_code(l)) == l,
{
    reveal_strlit("cn");
    reveal_strlit("en");
    let c = lang_code(l);
    assert(trim_start(c) == c);
    assert(trim_end(c) == c);
}

pub open spec fn pick(l: Lang, cn: Seq<char>, en: Seq<char>) -> Seq<char> {
    match l {
        Lang::Cn => cn,
        Lang::En => en,
    }
}

fn pick_str(l: Lang, cn: &'static str, en: &'static str) -> (r: &'static str)
    ensures
        r@ == pick(l, cn@, en@),
{
    match l {
        Lang::Cn => cn,
        Lang::En => en,
    }
}

/// The interface text under key `k` in language `l`; an unknown key gives
/// `[missing text]`.
pub open spec fn tr_text(l: Lang, k: Seq<char>) -> Seq<char> {
    if k == "win_title"@ {
        pick(l, "No-Sleep-Agent 设置"@, "No-Sleep-Agent Settings"@)
    } else if k == "app_title"@ {
        "No-Sleep-Agent-Tray"@
    } else if k == "subtitle"@ {
        pick(l, "防锁屏 · 防睡眠 · 保网络，AI Agent 稳定运行"@, "Anti-lock · Anti-sleep · Keep-online for AI agents"@)
    } else if k == "sec_protection"@ {
        pick(l, "保持策略"@, "Protection"@)
    } else if k == "chk_enabled"@ {
        pick(l, "启用保持（防睡眠，AI agent 可正常运行）"@, "Enable protection (anti-sleep, AI agents stay awake)"@)
    } else if k == "chk_display"@ {
        pick(l, "显示器常亮（防熄屏）"@, "Keep display on (no dim / off)"@)
    } else if k == "chk_away"@ {
        pick(l, "AwayMode 保网络（笔记本不断网）"@, "AwayMode keep-network (no disconnects)"@)
    } else if k == "chk_jiggle"@ {
        pick(l, "模拟 F15 按键（防公司 GPO 空闲锁屏）"@, "Emulate F15 key (beats corporate GPO idle lock)"@)
    } else if k == "sec_intervals"@ {
        pick(l, "间隔设置"@, "Intervals"@)
    } else if k == "lbl_interval"@ {
        pick(l, "刷新间隔（秒，5~600）："@, "Refresh interval (sec, 5-600):"@)
    } else if k == "lbl_jiggle"@ {
        pick(l, "F15 心跳间隔（秒，30~3600）："@, "F15 heartbeat (sec, 30-3600):"@)
    } else if k == "sec_system"@ {
        pick(l, "系统"@, "System"@)
    } else if k == "chk_autostart"@ {
        pick(l, "开机自启动"@, "Start on boot"@)
    } else if k == "chk_english"@ {
        "英文界面 / English UI"@
    } else if k == "btn_apply"@ {
        pick(l, "应用"@, "Apply"@)
    } else if k == "btn_ok"@ {
        pick(l, "确定"@, "OK"@)
    } else if k == "btn_cancel"@ {
        pick(l, "取消"@, "Cancel"@)
    } else if k == "err_title"@ {
        pick(l, "参数错误"@, "Invalid input"@)
    } else if k == "err_interval"@ {
        pick(l, "刷新间隔必须是 5~600 的数字"@, "Refresh interval must be a number 5-600"@)
    } else if k == "err_jiggle"@ {
        pick(l, "F15 心跳间隔必须是 30~3600 的数字"@, "Heartbeat must be a number 30-3600"@)
    } else if k == "err_autostart"@ {
        pick(l, "开机自启设置失败（注册表写入被拒）"@, "Autostart failed (registry write denied)"@)
    } else if k == "tip_title"@ {
        pick(l, "提示"@, "Notice"@)
    } else if k == "p_sleep"@ {
        pick(l, "防睡眠"@, "anti-sleep"@)
    } else if k == "p_display"@ {
        pick(l, "常亮"@, "display-on"@)
    } else if k == "p_away"@ {
        pick(l, "保网络"@, "keep-network"@)
    } else if k == "p_jiggle"@ {
        pick(l, "F15防锁屏"@, "F15 anti-lock"@)
    } else if k == "con_title"@ {
        pick(l, "=== No-Sleep-Agent 控制台模式 ==="@, "=== No-Sleep-Agent console mode ==="@)
    } else if k == "con_exit"@ {
        pick(l, "按 Ctrl+C 退出。"@, "Press Ctrl+C to exit."@)
    } else if k == "con_beat"@ {
        pick(l, "F15 心跳，保持在线。"@, "F15 heartbeat, staying awake."@)
    } else if k == "con_nodisp"@ {
        pick(l, "允许熄屏"@, "display may sleep"@)
    } else if k == "con_disp"@ {
        pick(l, "常亮"@, "display on"@)
    } else if k == "con_noaway"@ {
        pick(l, "无AwayMode"@, "no AwayMode"@)
    } else if k == "con_away"@ {
        pick(l, "保网络"@, "keep-network"@)
    } else if k == "con_nojig"@ {
        pick(l, "无按键"@, "no key"@)
    } else if k == "bri_ddc"@ {
        pick(l, "显示器 DDC"@, "monitor DDC"@)
    } else if k == "bri_wmi"@ {
        pick(l, "笔记本面板 WMI"@, "laptop panel WMI"@)
    } else if k == "bri_scheme"@ {
        pick(l, "系统电源方案"@, "power scheme"@)
    } else if k == "fatal_cap"@ {
        pick(l, "No-Sleep-Agent 启动失败"@, "No-Sleep-Agent failed to start"@)
    } else if k == "fatal_gui"@ {
        pick(l, "GUI 初始化失败："@, "GUI init failed: "@)
    } else if k == "fatal_tray"@ {
        pick(l, "托盘 UI 构建失败："@, "Tray UI build failed: "@)
    } else {
        "[missing text]"@
    }
}

/// The language that the characters `v[lo..hi]` name.
pub fn lang_from_range(v: &Vec<char>, lo: usize, hi: usize) -> (r: Lang)
    requires
        lo <= hi <= v.len(),
    ensures
        r == lang_of(v@.subrange(lo as int, hi as int)),
{
    let (a, b) = trim_range(v, lo, hi);
    if b - a == 2 && (v[a] == 'e' || v[a] == 'E') && (v[a + 1] == 'n' || v[a + 1] == 'N') {
        Lang::En
    } else {
        Lang::Cn
    }
}

impl Lang {
    /// Reads a language name: `en` (trimmed, any letter case) is English,
    /// anything else Chinese.
    pub fn parse(s: &str) -> (r: Lang)
        ensures
            r == lang_of(s@),
    {
        let v = chars_of(s);
        assert(v@.subrange(0, v@.len() as int) =~= v@);
        lang_from_range(&v, 0, v.len())
    }

    /// The code under which the language is saved.
    pub fn code(self) -> (r: &'static str)
        ensures
            r@ == lang_code(self),
    {
        match self {
            Lang::Cn => "cn",
            Lang::En => "en",
        }
    }
}

/// The interface text under key `k` in language `l`.
pub fn tr(l: Lang, k: &str) -> (r: &'static str)
    ensures
        r@ == tr_text(l, k@),
{
    let kv = chars_of(k);
    let n = kv.len();
    assert(kv@.subrange(0, n as int) =~= kv@);
    if range_eq(&kv, 0, n, "win_title") {
        pick_str(l, "No-Sleep-Agent 设置", "No-Sleep-Agent Settings")
    } else if range_eq(&kv, 0, n, "app_title") {
        "No-Sleep-Agent-Tray"
    } else if range_eq(&kv, 0, n, "subtitle") {
        pick_str(l, "防锁屏 · 防睡眠 · 保网络，AI Agent 稳定运行", "Anti-lock · Anti-sleep · Keep-online for AI agents")
    } else if range_eq(&kv, 0, n, "sec_protection") {
        pick_str(l, "保持策略", "Protection")
    } else if range_eq(&kv, 0, n, "chk_enabled") {
        pick_str(l, "启用保持（防睡眠，AI agent 可正常运行）", "Enable protection (anti-sleep, AI agents stay awake)")
    } else if range_eq(&kv, 0, n, "chk_display") {
        pick_str(l, "显示器常亮（防熄屏）", "Keep display on (no dim / off)")
    } else if range_eq(&kv, 0, n, "chk_away") {
        pick_str(l, "AwayMode 保网络（笔记本不断网）", "AwayMode keep-network (no disconnects)")
    } else if range_eq(&kv, 0, n, "chk_jiggle") {
        pick_str(l, "模拟 F15 按键（防公司 GPO 空闲锁屏）", "Emulate F15 key (beats corporate GPO idle lock)")
    } else if range_eq(&kv, 0, n, "sec_intervals") {
        pick_str(l, "间隔设置", "Intervals")
    } else if range_eq(&kv, 0, n, "lbl_interval") {
        pick_str(l, "刷新间隔（秒，5~600）：", "Refresh interval (sec, 5-600):")
    } else if range_eq(&kv, 0, n, "lbl_jiggle") {
        pick_str(l, "F15 心跳间隔（秒，30~3600）：", "F15 heartbeat (sec, 30-3600):")
    } else if range_eq(&kv, 0, n, "sec_system") {
        pick_str(l, "系统", "System")
    } else if range_eq(&kv, 0, n, "chk_autostart") {
        pick_str(l, "开机自启动", "Start on boot")
    } else if range_eq(&kv, 0, n, "chk_english") {
        "英文界面 / English UI"
    } else if range_eq(&kv, 0, n, "btn_apply") {
        pick_str(l, "应用", "Apply")
    } else if range_eq(&kv, 0, n, "btn_ok") {
        pick_str(l, "确定", "OK")
    } else if range_eq(&kv, 0, n, "btn_cancel") {
        pick_str(l, "取消", "Cancel")
    } else if range_eq(&kv, 0, n, "err_title") {
        pick_str(l, "参数错误", "Invalid input")
    } else if range_eq(&kv, 0, n, "err_interval") {
        pick_str(l, "刷新间隔必须是 5~600 的数字", "Refresh interval must be a number 5-600")
    } else if range_eq(&kv, 0, n, "err_jiggle") {
        pick_str(l, "F15 心跳间隔必须是 30~3600 的数字", "Heartbeat must be a number 30-3600")
    } else if range_eq(&kv, 0, n, "err_autostart") {
        pick_str(l, "开机自启设置失败（注册表写入被拒）", "Autostart failed (registry write denied)")
    } else if range_eq(&kv, 0, n, "tip_title") {
        pick_str(l, "提示", "Notice")
    } else if range_eq(&kv, 0, n, "p_sleep") {
        pick_str(l, "防睡眠", "anti-sleep")
    } else if range_eq(&kv, 0, n, "p_display") {
        pick_str(l, "常亮", "display-on")
    } else if range_eq(&kv, 0, n, "p_away") {
        pick_str(l, "保网络", "keep-network")
    } else if range_eq(&kv, 0, n, "p_jiggle") {
        pick_str(l, "F15防锁屏", "F15 anti-lock")
    } else if range_eq(&kv, 0, n, "con_title") {
        pick_str(l, "=== No-Sleep-Agent 控制台模式 ===", "=== No-Sleep-Agent console mode ===")
    } else if range_eq(&kv, 0, n, "con_exit") {
        pick_str(l, "按 Ctrl+C 退出。", "Press Ctrl+C to exit.")
    } else if range_eq(&kv, 0, n, "con_beat") {
        pick_str(l, "F15 心跳，保持在线。", "F15 heartbeat, staying awake.")
    } else if range_eq(&kv, 0, n, "con_nodisp") {
        pick_str(l, "允许熄屏", "display may sleep")
    } else if range_eq(&kv, 0, n, "con_disp") {
        pick_str(l, "常亮", "display on")
    } else if range_eq(&kv, 0, n, "con_noaway") {
        pick_str(l, "无AwayMode", "no AwayMode")
    } else if range_eq(&kv, 0, n, "con_away") {
        pick_str(l, "保网络", "keep-network")
    } else if range_eq(&kv, 0, n, "con_nojig") {
        pick_str(l, "无按键", "no key")
    } else if range_eq(&kv, 0, n, "bri_ddc") {
        pick_str(l, "显示器 DDC", "monitor DDC")
    } else if range_eq(&kv, 0, n, "bri_wmi") {
        pick_str(l, "笔记本面板 WMI", "laptop panel WMI")
    } else if range_eq(&kv, 0, n, "bri_scheme") {
        pick_str(l, "系统电源方案", "power scheme")
    } else if range_eq(&kv, 0, n, "fatal_cap") {
        pick_str(l, "No-Sleep-Agent 启动失败", "No-Sleep-Agent failed to start")
    } else if range_eq(&kv, 0, n, "fatal_gui") {
        pick_str(l, "GUI 初始化失败：", "GUI init failed: ")
    } else if range_eq(&kv, 0, n, "fatal_tray") {
        pick_str(l, "托盘 UI 构建失败：", "Tray UI build failed: ")
    } else {
        "[missing text]"
    }
}

} // verus!
