//! Setting the display brightness goes three ways: DDC/CI to external
//! monitors, WMI to laptop panels, the display brightness of the power
//! scheme. The calls are the system's; here are the script, the reading
//! of its answer and the report to the user.

use vstd::prelude::*;
use vstd::string::*;

use crate::lang::{tr, tr_text, Lang};
use crate::config::{find, lemma_dec, lemma_find_concat, lemma_parse_dec};
use crate::text::{
    all_digits, chars_of, dec, is_digit, join, parse_u64_spec, parse_usize_range,
    parse_usize_spec, push_dec, trim, trim_end, trim_range, trim_start, unsigned_digits,
};

verus! {

/// What the three ways achieved.
#[derive(Clone, Copy, Debug, PartialEq, Eq, Structural)]
pub struct BrightnessOutcome {
    /// Monitors that took the DDC/CI command.
    pub ddc_ok: usize,
    /// Monitors that were asked over DDC/CI.
    pub ddc_total: usize,
    /// Laptop panels that took the level over WMI.
    pub wmi: usize,
    /// Whether the power scheme took the new brightness.
    pub scheme: bool,
}

/// The number of `true` results.
pub open spec fn count_true(s: Seq<bool>) -> nat
    decreases s.len(),
{
    if s.len() == 0 {
        0
    } else {
        count_true(s.drop_last()) + (if s.last() {
            1nat
        } else {
            0nat
        })
    }
}

/// Never more monitors took the command than were asked.
pub proof fn lemma_count_true_bound(s: Seq<bool>)
    ensures
        count_true(s) <= s.len(),
    decreases s.len(),
{
    if s.len() > 0 {
        lemma_count_true_bound(s.drop_last());
    }
}

/// Counts the physical monitors that took the DDC/CI brightness command:
/// (accepted, asked).
pub fn ddc_tally(results: &Vec<bool>) -> (r: (usize, usize))
    ensures
        r.0 == count_true(results@),
        r.1 == results.len(),
{
    let mut ok: usize = 0;
    let mut i: usize = 0;
    while i < results.len()
        invariant
            0 <= i <= results.len(),
            ok == count_true(results@.take(i as int)),
            ok <= i,
        decreases results.len() - i,
    {
        assert(results@.take(i + 1).drop_last() =~= results@.take(i as int));
        if results[i] {
            ok = ok + 1;
        }
        i = i + 1;
    }
    assert(results@.take(results.len() as int) =~= results@);
    (ok, results.len())
}

/// The PowerShell script that sets the brightness of laptop panels over
/// WMI and prints how many panels took it: those whose call neither threw
/// nor returned a nonzero status.
pub open spec fn wmi_script_spec(level: u32) -> Seq<char> {
    "$ok = 0; @(Get-WmiObject -Namespace root/WMI -Class WmiMonitorBrightnessMethods) | ForEach-Object { try { $r = $_.WmiSetBrightness(0, "@
        + dec(level as nat) + "); if (-not $r -or -not $r.ReturnValue) { $ok++ } } catch {} }; $ok"@
}

/// The PowerShell script that sets the brightness of laptop panels over
/// WMI (timeout 0: the level stays) and prints how many panels took it.
pub fn wmi_script(level: u32) -> (r: String)
    ensures
        r@ == wmi_script_spec(level),
{
    let mut s = String::new();
    s.append(
        "$ok = 0; @(Get-WmiObject -Namespace root/WMI -Class WmiMonitorBrightnessMethods) | ForEach-Object { try { $r = $_.WmiSetBrightness(0, ",
    );
    push_dec(&mut s, level as u64);
    s.append("); if (-not $r -or -not $r.ReturnValue) { $ok++ } } catch {} }; $ok");
    s
}

/// The number of panels that took the level, as the script printed it;
/// 0 where its output is no number.
pub open spec fn wmi_count_spec(output: Seq<char>) -> usize {
    match parse_usize_spec(trim(output)) {
        Some(n) => n,
        None => 0,
    }
}

/// The number of panels that took the level, as the script printed it;
/// 0 where its output is no number.
pub fn wmi_count(output: &str) -> (r: usize)
    ensures
        r == wmi_count_spec(output@),
{
    let v = chars_of(output);
    assert(v@.subrange(0, v@.len() as int) =~= v@);
    let (a, b) = trim_range(&v, 0, v.len());
    match parse_usize_range(&v, a, b) {
        Some(n) => n,
        None => 0,
    }
}

/// The count that the script prints reads back, with its line end or not.
pub proof fn lemma_wmi_count_reads_back(n: usize)
    ensures
        wmi_count_spec(dec(n as nat)) == n,
        wmi_count_spec(dec(n as nat) + seq!['\r', '\n']) == n,
{
    let a = dec(n as nat);
    lemma_dec(n as nat);
    lemma_parse_dec(n as u64);
    assert(is_digit(a[0]));
    assert(is_digit(a[a.len() - 1]));
    let b = a + seq!['\r', '\n'];
    assert(b[0] == a[0]);
    assert(trim_start(b) == b);
    assert(b.drop_last() =~= a + seq!['\r']);
    assert((a + seq!['\r']).drop_last() =~= a);
    assert(trim_end(b) == trim_end(a + seq!['\r']));
    assert(trim_end(a + seq!['\r']) == trim_end(a));
    assert(trim_start(a) == a);
    assert(trim_end(a) == a);
    assert(unsigned_digits(a) == a);
}

/// The power scheme took the brightness when writing the AC value, writing
/// the DC value and activating the scheme all returned 0.
pub fn scheme_applied(ac_status: u32, dc_status: u32, activate_status: u32) -> (r: bool)
    ensures
        r == (ac_status == 0 && dc_status == 0 && activate_status == 0),
{
    ac_status == 0 && dc_status == 0 && activate_status == 0
}

/// How many monitors took the DDC/CI command.
pub open spec fn ddc_text(l: Lang, ok: usize, total: usize) -> Seq<char> {
    match l {
        Lang::Cn => "显示器 DDC "@ + dec(ok as nat) + "/"@ + dec(total as nat) + " 台"@,
        Lang::En => dec(ok as nat) + " of "@ + dec(total as nat) + " monitors via DDC"@,
    }
}

/// The ways that worked, in order.
pub open spec fn brightness_ways(l: Lang, o: BrightnessOutcome) -> Seq<Seq<char>> {
    (if o.ddc_ok > 0 {
        seq![ddc_text(l, o.ddc_ok, o.ddc_total)]
    } else {
        Seq::empty()
    }) + (if o.wmi > 0 {
        seq![tr_text(l, "bri_wmi"@)]
    } else {
        Seq::empty()
    }) + (if o.scheme {
        seq![tr_text(l, "bri_scheme"@)]
    } else {
        Seq::empty()
    })
}

/// The report on setting the brightness to `level` percent: the ways that
/// worked, or why none did.
pub open spec fn brightness_message(level: u32, l: Lang, o: BrightnessOutcome) -> Seq<char> {
    let ways = brightness_ways(l, o);
    if ways.len() == 0 {
        if o.ddc_total > 0 {
            match l {
                Lang::Cn => "亮度设置失败：显示器拒绝 DDC/CI 指令，请检查显示器菜单是否禁用了 DDC/CI"@,
                Lang::En => "Brightness failed: monitors rejected DDC/CI, check if DDC/CI is disabled in monitor menu"@,
            }
        } else {
            match l {
                Lang::Cn => "未找到可调亮度的显示器（台式机请用显示器按键，远程桌面无法调节）"@,
                Lang::En => "No adjustable display found (use monitor buttons on desktops; RDP cannot adjust)"@,
            }
        }
    } else {
        match l {
            Lang::Cn => "亮度已设为 "@ + dec(level as nat) + "%（"@ + join(ways, " + "@) + "）"@,
            Lang::En => "Brightness set to "@ + dec(level as nat) + "% ("@ + join(ways, " + "@)
                + ")"@,
        }
    }
}

/// A run of digits holds no character other than digits.
proof fn lemma_digits_lack(s: Seq<char>, c: char)
    requires
        all_digits(s),
        !is_digit(c),
    ensures
        !s.contains(c),
{
    if s.contains(c) {
        let i = choose|i: int| 0 <= i < s.len() && s[i] == c;
        assert(is_digit(s[i]));
    }
}

/// The English DDC part reads back: the number before ` of ` is the count
/// of monitors that took the command, the number after it the count of
/// monitors asked.
pub proof fn lemma_ddc_text_en_reads_back(ok: usize, total: usize)
    ensures
        ({
            let t = ddc_text(Lang::En, ok, total);
            let j = find(t, ' ');
            let u = t.skip(j + 4);
            &&& parse_u64_spec(t.take(j)) == Some(ok as u64)
            &&& t.subrange(j, j + 4) == " of "@
            &&& parse_u64_spec(u.take(find(u, ' '))) == Some(total as u64)
        }),
{
    reveal_strlit(" of ");
    reveal_strlit(" monitors via DDC");
    let a = dec(ok as nat);
    let b = dec(total as nat);
    lemma_dec(ok as nat);
    lemma_dec(total as nat);
    lemma_parse_dec(ok as u64);
    lemma_parse_dec(total as u64);
    lemma_digits_lack(a, ' ');
    lemma_digits_lack(b, ' ');
    let rest = seq!['o', 'f', ' '] + b + " monitors via DDC"@;
    let t = ddc_text(Lang::En, ok, total);
    assert(t =~= a + seq![' '] + rest);
    lemma_find_concat(a, ' ', rest);
    let j = a.len() as int;
    assert(t.take(j) =~= a);
    assert(t.subrange(j, j + 4) =~= " of "@);
    let u = t.skip(j + 4);
    let tail = "monitors via DDC"@;
    reveal_strlit("monitors via DDC");
    assert(u =~= b + seq![' '] + tail);
    lemma_find_concat(b, ' ', tail);
    assert(u.take(b.len() as int) =~= b);
}

/// The Chinese DDC part reads back: after its 8-character label, the
/// number before `/` is the count of monitors that took the command, the
/// number after it the count of monitors asked.
pub proof fn lemma_ddc_text_cn_reads_back(ok: usize, total: usize)
    ensures
        ({
            let u = ddc_text(Lang::Cn, ok, total).skip(8);
            let j = find(u, '/');
            let w = u.skip(j + 1);
            &&& parse_u64_spec(u.take(j)) == Some(ok as u64)
            &&& parse_u64_spec(w.take(find(w, ' '))) == Some(total as u64)
        }),
{
    reveal_strlit("显示器 DDC ");
    reveal_strlit("/");
    reveal_strlit(" 台");
    let a = dec(ok as nat);
    let b = dec(total as nat);
    lemma_dec(ok as nat);
    lemma_dec(total as nat);
    lemma_parse_dec(ok as u64);
    lemma_parse_dec(total as u64);
    lemma_digits_lack(a, '/');
    lemma_digits_lack(b, ' ');
    let t = ddc_text(Lang::Cn, ok, total);
    let u = t.skip(8);
    let rest = b + " 台"@;
    assert(u =~= a + seq!['/'] + rest);
    lemma_find_concat(a, '/', rest);
    assert(u.take(a.len() as int) =~= a);
    let w = u.skip(a.len() as int + 1);
    assert(w =~= b + seq![' '] + seq!['台']);
    lemma_find_concat(b, ' ', seq!['台']);
    assert(w.take(b.len() as int) =~= b);
}

/// The ways listed are those that worked, in the order DDC/CI, WMI, power
/// scheme: DDC/CI with its counts, WMI where a panel took the level, the
/// power scheme where it took the level.
pub proof fn lemma_brightness_ways(l: Lang, o: BrightnessOutcome)
    ensures
        ({
            let ways = brightness_ways(l, o);
            let d: int = if o.ddc_ok > 0 { 1 } else { 0 };
            let w: int = if o.wmi > 0 { 1 } else { 0 };
            let p: int = if o.scheme { 1 } else { 0 };
            &&& ways.len() == d + w + p
            &&& o.ddc_ok > 0 ==> ways[0] == ddc_text(l, o.ddc_ok, o.ddc_total)
            &&& o.wmi > 0 ==> ways[d] == tr_text(l, "bri_wmi"@)
            &&& o.scheme ==> ways[d + w] == tr_text(l, "bri_scheme"@)
        }),
{
}

/// Where no way worked, the report does not depend on the level: it blames
/// DDC/CI where monitors were asked, else says no display could be set.
pub proof fn lemma_brightness_failure(level1: u32, level2: u32, l: Lang, o: BrightnessOutcome)
    requires
        o.ddc_ok == 0,
        o.wmi == 0,
        !o.scheme,
    ensures
        brightness_message(level1, l, o) == brightness_message(level2, l, o),
        brightness_message(level1, l, o) != brightness_message(
            level1,
            l,
            BrightnessOutcome { ddc_total: if o.ddc_total > 0 { 0 } else { 1 }, ..o },
        ),
{
    reveal_strlit("亮度设置失败：显示器拒绝 DDC/CI 指令，请检查显示器菜单是否禁用了 DDC/CI");
    reveal_strlit("Brightness failed: monitors rejected DDC/CI, check if DDC/CI is disabled in monitor menu");
    reveal_strlit("未找到可调亮度的显示器（台式机请用显示器按键，远程桌面无法调节）");
    reveal_strlit("No adjustable display found (use monitor buttons on desktops; RDP cannot adjust)");
    let o2 = BrightnessOutcome { ddc_total: if o.ddc_total > 0 { 0 } else { 1 }, ..o };
    assert(brightness_ways(l, o) =~= Seq::<Seq<char>>::empty());
    assert(brightness_ways(l, o2) =~= Seq::<Seq<char>>::empty());
    assert("亮度设置失败：显示器拒绝 DDC/CI 指令，请检查显示器菜单是否禁用了 DDC/CI"@.len() != "未找到可调亮度的显示器（台式机请用显示器按键，远程桌面无法调节）"@.len());
    assert("Brightness failed: monitors rejected DDC/CI, check if DDC/CI is disabled in monitor menu"@.len() != "No adjustable display found (use monitor buttons on desktops; RDP cannot adjust)"@.len());
}

/// Where some way worked, the English report names the level: the number
/// after `Brightness set to ` and before `%` is the level.
pub proof fn lemma_brightness_level_en(level: u32, o: BrightnessOutcome)
    requires
        o.ddc_ok > 0 || o.wmi > 0 || o.scheme,
    ensures
        ({
            let m = brightness_message(level, Lang::En, o);
            let u = m.skip(18);
            &&& m.take(18) == "Brightness set to "@
            &&& parse_u64_spec(u.take(find(u, '%'))) == Some(level as u64)
        }),
{
    reveal_strlit("Brightness set to ");
    reveal_strlit("% (");
    let ways = brightness_ways(Lang::En, o);
    lemma_brightness_ways(Lang::En, o);
    let a = dec(level as nat);
    lemma_dec(level as nat);
    lemma_parse_dec(level as u64);
    lemma_digits_lack(a, '%');
    let m = brightness_message(level, Lang::En, o);
    let rest = seq![' ', '('] + join(ways, " + "@) + ")"@;
    assert(m =~= "Brightness set to "@ + (a + seq!['%'] + rest));
    assert(m.take(18) =~= "Brightness set to "@);
    let u = m.skip(18);
    assert(u =~= a + seq!['%'] + rest);
    lemma_find_concat(a, '%', rest);
    assert(u.take(a.len() as int) =~= a);
}

/// Where some way worked, the Chinese report names the level: the number
/// after `亮度已设为 ` and before `%` is the level.
pub proof fn lemma_brightness_level_cn(level: u32, o: BrightnessOutcome)
    requires
        o.ddc_ok > 0 || o.wmi > 0 || o.scheme,
    ensures
        ({
            let m = brightness_message(level, Lang::Cn, o);
            let u = m.skip(6);
            &&& m.take(6) == "亮度已设为 "@
            &&& parse_u64_spec(u.take(find(u, '%'))) == Some(level as u64)
        }),
{
    reveal_strlit("亮度已设为 ");
    reveal_strlit("%（");
    let ways = brightness_ways(Lang::Cn, o);
    lemma_brightness_ways(Lang::Cn, o);
    let a = dec(level as nat);
    lemma_dec(level as nat);
    lemma_parse_dec(level as u64);
    lemma_digits_lack(a, '%');
    let m = brightness_message(level, Lang::Cn, o);
    let rest = seq!['（'] + join(ways, " + "@) + "）"@;
    assert(m =~= "亮度已设为 "@ + (a + seq!['%'] + rest));
    assert(m.take(6) =~= "亮度已设为 "@);
    let u = m.skip(6);
    assert(u =~= a + seq!['%'] + rest);
    lemma_find_concat(a, '%', rest);
    assert(u.take(a.len() as int) =~= a);
}

fn push_ddc_text(s: &mut String, l: Lang, ok: usize, total: usize)
    ensures
        final(s)@ == old(s)@ + ddc_text(l, ok, total),
{
    match l {
        Lang::Cn => {
            s.append("显示器 DDC ");
            push_dec(s, ok as u64);
            s.append("/");
            push_dec(s, total as u64);
            s.append(" 台");
        },
        Lang::En => {
            push_dec(s, ok as u64);
            s.append(" of ");
            push_dec(s, total as u64);
            s.append(" monitors via DDC");
        },
    }
    assert(final(s)@ =~= old(s)@ + ddc_text(l, ok, total));
}

/// The report on setting the brightness to `level` percent, in language
/// `lang`, from what the three ways achieved.
pub fn set_brightness(level: u32, lang: Lang, outcome: BrightnessOutcome) -> (r: String)
    ensures
        r@ == brightness_message(level, lang, outcome),
{
    let ghost ways = brightness_ways(lang, outcome);
    let ghost sep = " + "@;
    let mut joined = String::new();
    let mut count: usize = 0;
    let ghost w1: Seq<Seq<char>> = if outcome.ddc_ok > 0 {
        seq![ddc_text(lang, outcome.ddc_ok, outcome.ddc_total)]
    } else {
        Seq::empty()
    };
    if outcome.ddc_ok > 0 {
        push_ddc_text(&mut joined, lang, outcome.ddc_ok, outcome.ddc_total);
        count = count + 1;
    }
    assert(joined@ =~= join(w1, sep)) by {
        reveal_with_fuel(join, 2);
    }
    let ghost w2: Seq<Seq<char>> = w1 + (if outcome.wmi > 0 {
        seq![tr_text(lang, "bri_wmi"@)]
    } else {
        Seq::empty()
    });
    if outcome.wmi > 0 {
        if count > 0 {
            joined.append(" + ");
        }
        joined.append(tr(lang, "bri_wmi"));
        count = count + 1;
        assert(w2.drop_last() =~= w1);
    } else {
        assert(w2 =~= w1);
    }
    assert(count == w2.len());
    assert(joined@ =~= join(w2, sep)) by {
        reveal_with_fuel(join, 2);
    }
    let ghost w3: Seq<Seq<char>> = w2 + (if outcome.scheme {
        seq![tr_text(lang, "bri_scheme"@)]
    } else {
        Seq::empty()
    });
    if outcome.scheme {
        if count > 0 {
            joined.append(" + ");
        }
        joined.append(tr(lang, "bri_scheme"));
        count = count + 1;
        assert(w3.drop_last() =~= w2);
    } else {
        assert(w3 =~= w2);
    }
    assert(count == w3.len());
    assert(joined@ =~= join(w3, sep)) by {
        reveal_with_fuel(join, 2);
    }
    assert(w3 =~= ways);
    if count == 0 {
        if outcome.ddc_total > 0 {
            match lang {
                Lang::Cn => String::from_str(
                    "亮度设置失败：显示器拒绝 DDC/CI 指令，请检查显示器菜单是否禁用了 DDC/CI",
                ),
                Lang::En => String::from_str(
                    "Brightness failed: monitors rejected DDC/CI, check if DDC/CI is disabled in monitor menu",
                ),
            }
        } else {
            match lang {
                Lang::Cn => String::from_str(
                    "未找到可调亮度的显示器（台式机请用显示器按键，远程桌面无法调节）",
                ),
                Lang::En => String::from_str(
                    "No adjustable display found (use monitor buttons on desktops; RDP cannot adjust)",
                ),
            }
        }
    } else {
        let mut s = String::new();
        match lang {
            Lang::Cn => {
                s.append("亮度已设为 ");
                push_dec(&mut s, level as u64);
                s.append("%（");
                s.append(joined.as_str());
                s.append("）");
            },
            Lang::En => {
                s.append("Brightness set to ");
                push_dec(&mut s, level as u64);
                s.append("% (");
                s.append(joined.as_str());
                s.append(")");
            },
        }
        assert(s@ =~= brightness_message(level, lang, outcome));
        s
    }
}

/// The title of the notification that reports a brightness change.
pub open spec fn brightness_title_spec(level: u32, l: Lang) -> Seq<char> {
    match l {
        Lang::Cn => "亮度 "@ + dec(level as nat) + "%"@,
        Lang::En => "Brightness "@ + dec(level as nat) + "%"@,
    }
}

/// The title of the notification that reports a brightness change.
pub fn brightness_title(level: u32, lang: Lang) -> (r: String)
    ensures
        r@ == brightness_title_spec(level, lang),
{
    let mut s = String::new();
    match lang {
        Lang::Cn => s.append("亮度 "),
        Lang::En => s.append("Brightness "),
    }
    push_dec(&mut s, level as u64);
    s.append("%");
    assert(s@ =~= brightness_title_spec(level, lang));
    s
}

} // verus!
