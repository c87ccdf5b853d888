use keepawake::brightness::{
    brightness_title, ddc_tally, scheme_applied, set_brightness, wmi_count, wmi_script, BrightnessOutcome,
};
use keepawake::lang::Lang;

fn outcome(ddc_ok: usize, ddc_total: usize, wmi: usize, scheme: bool) -> BrightnessOutcome {
    BrightnessOutcome { ddc_ok, ddc_total, wmi, scheme }
}

#[test]
fn all_ways_reported() {
    assert_eq!(
        set_brightness(50, Lang::Cn, outcome(2, 3, 1, true)),
        "亮度已设为 50%（显示器 DDC 2/3 台 + 笔记本面板 WMI + 系统电源方案）"
    );
    assert_eq!(
        set_brightness(15, Lang::En, outcome(1, 1, 2, true)),
        "Brightness set to 15% (1 of 1 monitors via DDC + laptop panel WMI + power scheme)"
    );
}

#[test]
fn single_way_reported() {
    assert_eq!(set_brightness(50, Lang::En, outcome(0, 2, 0, true)), "Brightness set to 50% (power scheme)");
    assert_eq!(set_brightness(15, Lang::Cn, outcome(0, 0, 3, false)), "亮度已设为 15%（笔记本面板 WMI）");
}

#[test]
fn failures_explained() {
    assert_eq!(
        set_brightness(50, Lang::En, outcome(0, 2, 0, false)),
        "Brightness failed: monitors rejected DDC/CI, check if DDC/CI is disabled in monitor menu"
    );
    assert_eq!(
        set_brightness(50, Lang::Cn, outcome(0, 0, 0, false)),
        "未找到可调亮度的显示器（台式机请用显示器按键，远程桌面无法调节）"
    );
}

#[test]
fn ddc_results_are_counted() {
    assert_eq!(ddc_tally(&vec![]), (0, 0));
    assert_eq!(ddc_tally(&vec![true, false, true]), (2, 3));
}

#[test]
fn wmi_script_text() {
    assert_eq!(
        wmi_script(50),
        "$ok = 0; @(Get-WmiObject -Namespace root/WMI -Class WmiMonitorBrightnessMethods) | ForEach-Object { try { $r = $_.WmiSetBrightness(0, 50); if (-not $r -or -not $r.ReturnValue) { $ok++ } } catch {} }; $ok"
    );
}

#[test]
fn wmi_answer_is_read() {
    assert_eq!(wmi_count("1\r\n"), 1);
    assert_eq!(wmi_count("  12 "), 12);
    assert_eq!(wmi_count(""), 0);
    assert_eq!(wmi_count("error"), 0);
    assert_eq!(wmi_count("-1"), 0);
}

#[test]
fn scheme_needs_all_three_calls() {
    assert!(scheme_applied(0, 0, 0));
    assert!(!scheme_applied(0, 5, 0));
    assert!(!scheme_applied(1, 0, 0));
    assert!(!scheme_applied(0, 0, 2));
}

#[test]
fn titles() {
    assert_eq!(brightness_title(50, Lang::Cn), "亮度 50%");
    assert_eq!(brightness_title(15, Lang::En), "Brightness 15%");
}
