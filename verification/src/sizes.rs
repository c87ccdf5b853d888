//! Bounds on the size of the status line and the tray tip.

use vstd::prelude::*;
use vstd::utf8::{char_is_scalar, encode_utf8};

use crate::config::{lemma_dec, Config};
use crate::lang::{pick, tr_text, Lang};
use crate::status::{byte_len, parts_text, status_text, tip_text, STATUS_MAX_BYTES};
use crate::text::{all_digits, dec, is_digit};

verus! {

/// Every character lies in the basic multilingual plane (at most three
/// bytes in UTF-8).
pub open spec fn bmp(s: Seq<char>) -> bool {
    forall|i: int| 0 <= i < s.len() ==> (#[trigger] s[i] as u32) < 0x10000
}

proof fn lemma_bmp_add(a: Seq<char>, b: Seq<char>)
    requires
        bmp(a),
        bmp(b),
    ensures
        bmp(a + b),
{
    assert forall|i: int| 0 <= i < (a + b).len() implies ((a + b)[i] as u32) < 0x10000 by {
        if i < a.len() {
            assert((a + b)[i] == a[i]);
        } else {
            assert((a + b)[i] == b[i - a.len()]);
        }
    }
}

/// A text of characters of the basic multilingual plane takes at most three
/// bytes per character in UTF-8.
proof fn lemma_encode_bmp(s: Seq<char>)
    requires
        bmp(s),
    ensures
        encode_utf8(s).len() <= 3 * s.len(),
    decreases s.len(),
{
    if s.len() > 0 {
        char_is_scalar(s[0]);
        assert(bmp(s.drop_first())) by {
            assert forall|i: int| 0 <= i < s.drop_first().len() implies (
            #[trigger] s.drop_first()[i] as u32) < 0x10000 by {
                assert(s.drop_first()[i] == s[i + 1]);
            }
        }
        lemma_encode_bmp(s.drop_first());
    }
}

pub open spec fn pow10(k: nat) -> nat
    decreases k,
{
    if k == 0 {
        1
    } else {
        10 * pow10((k - 1) as nat)
    }
}

proof fn lemma_dec_len(n: nat, k: nat)
    requires
        k >= 1,
        n < pow10(k),
    ensures
        dec(n).len() <= k,
    decreases n,
{
    if n >= 10 {
        if k == 1 {
            assert(pow10(1) == 10 * pow10(0));
        } else {
            let p = pow10((k - 1) as nat);
            assert(n / 10 < p) by (nonlinear_arith)
                requires
                    n < 10 * p,
            ;
            lemma_dec_len(n / 10, (k - 1) as nat);
        }
    }
}

/// The decimal text of a `u64` has at most 20 digits, all ASCII.
proof fn lemma_dec_u64(n: u64)
    ensures
        dec(n as nat).len() <= 20,
        bmp(dec(n as nat)),
{
    reveal_with_fuel(pow10, 21);
    assert(pow10(20) == 100000000000000000000nat);
    lemma_dec_len(n as nat, 20);
    lemma_dec(n as nat);
    let d = dec(n as nat);
    assert forall|i: int| 0 <= i < d.len() implies (#[trigger] d[i] as u32) < 0x10000 by {
        assert(is_digit(d[i]));
    }
}

/// The interface texts of the protections.
proof fn lemma_part_words(l: Lang)
    ensures
        tr_text(l, "p_sleep"@) == pick(l, "防睡眠"@, "anti-sleep"@),
        tr_text(l, "p_display"@) == pick(l, "常亮"@, "display-on"@),
        tr_text(l, "p_away"@) == pick(l, "保网络"@, "keep-network"@),
        tr_text(l, "p_jiggle"@) == pick(l, "F15防锁屏"@, "F15 anti-lock"@),
{
    lemma_part_word_sleep(l);
    lemma_part_word_display(l);
    lemma_part_word_away(l);
    lemma_part_word_jiggle(l);
}

proof fn lemma_part_word_sleep(l: Lang)
    ensures
        tr_text(l, "p_sleep"@) == pick(l, "防睡眠"@, "anti-sleep"@),
{
    reveal_strlit("win_title");
    reveal_strlit("app_title");
    reveal_strlit("subtitle");
    reveal_strlit("sec_protection");
    reveal_strlit("chk_enabled");
    reveal_strlit("chk_display");
    reveal_strlit("chk_away");
    reveal_strlit("chk_jiggle");
    reveal_strlit("sec_intervals");
    reveal_strlit("lbl_interval");
    reveal_strlit("lbl_jiggle");
    reveal_strlit("sec_system");
    reveal_strlit("chk_autostart");
    reveal_strlit("chk_english");
    reveal_strlit("btn_apply");
    reveal_strlit("btn_ok");
    reveal_strlit("btn_cancel");
    reveal_strlit("err_title");
    reveal_strlit("err_interval");
    reveal_strlit("err_jiggle");
    reveal_strlit("err_autostart");
    reveal_strlit("tip_title");
    reveal_strlit("p_sleep");
    assert("p_sleep"@.len() != "win_title"@.len());
    assert("p_sleep"@ != "win_title"@);
    assert("p_sleep"@.len() != "app_title"@.len());
    assert("p_sleep"@ != "app_title"@);
    assert("p_sleep"@.len() != "subtitle"@.len());
    assert("p_sleep"@ != "subtitle"@);
    assert("p_sleep"@.len() != "sec_protection"@.len());
    assert("p_sleep"@ != "sec_protection"@);
    assert("p_sleep"@.len() != "chk_enabled"@.len());
    assert("p_sleep"@ != "chk_enabled"@);
    assert("p_sleep"@.len() != "chk_display"@.len());
    assert("p_sleep"@ != "chk_display"@);
    assert("p_sleep"@.len() != "chk_away"@.len());
    assert("p_sleep"@ != "chk_away"@);
    assert("p_sleep"@.len() != "chk_jiggle"@.len());
    assert("p_sleep"@ != "chk_jiggle"@);
    assert("p_sleep"@.len() != "sec_intervals"@.len());
    assert("p_sleep"@ != "sec_intervals"@);
    assert("p_sleep"@.len() != "lbl_interval"@.len());
    assert("p_sleep"@ != "lbl_interval"@);
    assert("p_sleep"@.len() != "lbl_jiggle"@.len());
    assert("p_sleep"@ != "lbl_jiggle"@);
    assert("p_sleep"@.len() != "sec_system"@.len());
    assert("p_sleep"@ != "sec_system"@);
    assert("p_sleep"@.len() != "chk_autostart"@.len());
    assert("p_sleep"@ != "chk_autostart"@);
    assert("p_sleep"@.len() != "chk_english"@.len());
    assert("p_sleep"@ != "chk_english"@);
    assert("p_sleep"@.len() != "btn_apply"@.len());
    assert("p_sleep"@ != "btn_apply"@);
    assert("p_sleep"@.len() != "btn_ok"@.len());
    assert("p_sleep"@ != "btn_ok"@);
    assert("p_sleep"@.len() != "btn_cancel"@.len());
    assert("p_sleep"@ != "btn_cancel"@);
    assert("p_sleep"@.len() != "err_title"@.len());
    assert("p_sleep"@ != "err_title"@);
    assert("p_sleep"@.len() != "err_interval"@.len());
    assert("p_sleep"@ != "err_interval"@);
    assert("p_sleep"@.len() != "err_jiggle"@.len());
    assert("p_sleep"@ != "err_jiggle"@);
    assert("p_sleep"@.len() != "err_autostart"@.len());
    assert("p_sleep"@ != "err_autostart"@);
    assert("p_sleep"@.len() != "tip_title"@.len());
    assert("p_sleep"@ != "tip_title"@);
}

proof fn lemma_part_word_display(l: Lang)
    ensures
        tr_text(l, "p_display"@) == pick(l, "常亮"@, "display-on"@),
{
    reveal_strlit("win_title");
    reveal_strlit("app_title");
    reveal_strlit("subtitle");
    reveal_strlit("sec_protection");
    reveal_strlit("chk_enabled");
    reveal_strlit("chk_display");
    reveal_strlit("chk_away");
    reveal_strlit("chk_jiggle");
    reveal_strlit("sec_intervals");
    reveal_strlit("lbl_interval");
    reveal_strlit("lbl_jiggle");
    reveal_strlit("sec_system");
    reveal_strlit("chk_autostart");
    reveal_strlit("chk_english");
    reveal_strlit("btn_apply");
    reveal_strlit("btn_ok");
    reveal_strlit("btn_cancel");
    reveal_strlit("err_title");
    reveal_strlit("err_interval");
    reveal_strlit("err_jiggle");
    reveal_strlit("err_autostart");
    reveal_strlit("tip_title");
    reveal_strlit("p_sleep");
    reveal_strlit("p_display");
    assert("p_display"@[0] != "win_title"@[0]);
    assert("p_display"@ != "win_title"@);
    assert("p_display"@[0] != "app_title"@[0]);
    assert("p_display"@ != "app_title"@);
    assert("p_display"@.len() != "subtitle"@.len());
    assert("p_display"@ != "subtitle"@);
    assert("p_display"@.len() != "sec_protection"@.len());
    assert("p_display"@ != "sec_protection"@);
    assert("p_display"@.len() != "chk_enabled"@.len());
    assert("p_display"@ != "chk_enabled"@);
    assert("p_display"@.len() != "chk_display"@.len());
    assert("p_display"@ != "chk_display"@);
    assert("p_display"@.len() != "chk_away"@.len());
    assert("p_display"@ != "chk_away"@);
    assert("p_display"@.len() != "chk_jiggle"@.len());
    assert("p_display"@ != "chk_jiggle"@);
    assert("p_display"@.len() != "sec_intervals"@.len());
    assert("p_display"@ != "sec_intervals"@);
    assert("p_display"@.len() != "lbl_interval"@.len());
    assert("p_display"@ != "lbl_interval"@);
    assert("p_display"@.len() != "lbl_jiggle"@.len());
    assert("p_display"@ != "lbl_jiggle"@);
    assert("p_display"@.len() != "sec_system"@.len());
    assert("p_display"@ != "sec_system"@);
    assert("p_display"@.len() != "chk_autostart"@.len());
    assert("p_display"@ != "chk_autostart"@);
    assert("p_display"@.len() != "chk_english"@.len());
    assert("p_display"@ != "chk_english"@);
    assert("p_display"@[0] != "btn_apply"@[0]);
    assert("p_display"@ != "btn_apply"@);
    assert("p_display"@.len() != "btn_ok"@.len());
    assert("p_display"@ != "btn_ok"@);
    assert("p_display"@.len() != "btn_cancel"@.len());
    assert("p_display"@ != "btn_cancel"@);
    assert("p_display"@[0] != "err_title"@[0]);
    assert("p_display"@ != "err_title"@);
    assert("p_display"@.len() != "err_interval"@.len());
    assert("p_display"@ != "err_interval"@);
    assert("p_display"@.len() != "err_jiggle"@.len());
    assert("p_display"@ != "err_jiggle"@);
    assert("p_display"@.len() != "err_autostart"@.len());
    assert("p_display"@ != "err_autostart"@);
    assert("p_display"@[0] != "tip_title"@[0]);
    assert("p_display"@ != "tip_title"@);
    assert("p_display"@.len() != "p_sleep"@.len());
    assert("p_display"@ != "p_sleep"@);
}

proof fn lemma_part_word_away(l: Lang)
    ensures
        tr_text(l, "p_away"@) == pick(l, "保网络"@, "keep-network"@),
{
    reveal_strlit("win_title");
    reveal_strlit("app_title");
    reveal_strlit("subtitle");
    reveal_strlit("sec_protection");
    reveal_strlit("chk_enabled");
    reveal_strlit("chk_display");
    reveal_strlit("chk_away");
    reveal_strlit("chk_jiggle");
    reveal_strlit("sec_intervals");
    reveal_strlit("lbl_interval");
    reveal_strlit("lbl_jiggle");
    reveal_strlit("sec_system");
    reveal_strlit("chk_autostart");
    reveal_strlit("chk_english");
    reveal_strlit("btn_apply");
    reveal_strlit("btn_ok");
    reveal_strlit("btn_cancel");
    reveal_strlit("err_title");
    reveal_strlit("err_interval");
    reveal_strlit("err_jiggle");
    reveal_strlit("err_autostart");
    reveal_strlit("tip_title");
    reveal_strlit("p_sleep");
    reveal_strlit("p_display");
    reveal_strlit("p_away");
    assert("p_away"@.len() != "win_title"@.len());
    assert("p_away"@ != "win_title"@);
    assert("p_away"@.len() != "app_title"@.len());
    assert("p_away"@ != "app_title"@);
    assert("p_away"@.len() != "subtitle"@.len());
    assert("p_away"@ != "subtitle"@);
    assert("p_away"@.len() != "sec_protection"@.len());
    assert("p_away"@ != "sec_protection"@);
    assert("p_away"@.len() != "chk_enabled"@.len());
    assert("p_away"@ != "chk_enabled"@);
    assert("p_away"@.len() != "chk_display"@.len());
    assert("p_away"@ != "chk_display"@);
    assert("p_away"@.len() != "chk_away"@.len());
    assert("p_away"@ != "chk_away"@);
    assert("p_away"@.len() != "chk_jiggle"@.len());
    assert("p_away"@ != "chk_jiggle"@);
    assert("p_away"@.len() != "sec_intervals"@.len());
    assert("p_away"@ != "sec_intervals"@);
    assert("p_away"@.len() != "lbl_interval"@.len());
    assert("p_away"@ != "lbl_interval"@);
    assert("p_away"@.len() != "lbl_jiggle"@.len());
    assert("p_away"@ != "lbl_jiggle"@);
    assert("p_away"@.len() != "sec_system"@.len());
    assert("p_away"@ != "sec_system"@);
    assert("p_away"@.len() != "chk_autostart"@.len());
    assert("p_away"@ != "chk_autostart"@);
    assert("p_away"@.len() != "chk_english"@.len());
    assert("p_away"@ != "chk_english"@);
    assert("p_away"@.len() != "btn_apply"@.len());
    assert("p_away"@ != "btn_apply"@);
    assert("p_away"@[0] != "btn_ok"@[0]);
    assert("p_away"@ != "btn_ok"@);
    assert("p_away"@.len() != "btn_cancel"@.len());
    assert("p_away"@ != "btn_cancel"@);
    assert("p_away"@.len() != "err_title"@.len());
    assert("p_away"@ != "err_title"@);
    assert("p_away"@.len() != "err_interval"@.len());
    assert("p_away"@ != "err_interval"@);
    assert("p_away"@.len() != "err_jiggle"@.len());
    assert("p_away"@ != "err_jiggle"@);
    assert("p_away"@.len() != "err_autostart"@.len());
    assert("p_away"@ != "err_autostart"@);
    assert("p_away"@.len() != "tip_title"@.len());
    assert("p_away"@ != "tip_title"@);
    assert("p_away"@.len() != "p_sleep"@.len());
    assert("p_away"@ != "p_sleep"@);
    assert("p_away"@.len() != "p_display"@.len());
    assert("p_away"@ != "p_display"@);
}

proof fn lemma_part_word_jiggle(l: Lang)
    ensures
        tr_text(l, "p_jiggle"@) == pick(l, "F15防锁屏"@, "F15 anti-lock"@),
{
    reveal_strlit("win_title");
    reveal_strlit("app_title");
    reveal_strlit("subtitle");
    reveal_strlit("sec_protection");
    reveal_strlit("chk_enabled");
    reveal_strlit("chk_display");
    reveal_strlit("chk_away");
    reveal_strlit("chk_jiggle");
    reveal_strlit("sec_intervals");
    reveal_strlit("lbl_interval");
    reveal_strlit("lbl_jiggle");
    reveal_strlit("sec_system");
    reveal_strlit("chk_autostart");
    reveal_strlit("chk_english");
    reveal_strlit("btn_apply");
    reveal_strlit("btn_ok");
    reveal_strlit("btn_cancel");
    reveal_strlit("err_title");
    reveal_strlit("err_interval");
    reveal_strlit("err_jiggle");
    reveal_strlit("err_autostart");
    reveal_strlit("tip_title");
    reveal_strlit("p_sleep");
    reveal_strlit("p_display");
    reveal_strlit("p_away");
    reveal_strlit("p_jiggle");
    assert("p_jiggle"@.len() != "win_title"@.len());
    assert("p_jiggle"@ != "win_title"@);
    assert("p_jiggle"@.len() != "app_title"@.len());
    assert("p_jiggle"@ != "app_title"@);
    assert("p_jiggle"@[0] != "subtitle"@[0]);
    assert("p_jiggle"@ != "subtitle"@);
    assert("p_jiggle"@.len() != "sec_protection"@.len());
    assert("p_jiggle"@ != "sec_protection"@);
    assert("p_jiggle"@.len() != "chk_enabled"@.len());
    assert("p_jiggle"@ != "chk_enabled"@);
    assert("p_jiggle"@.len() != "chk_display"@.len());
    assert("p_jiggle"@ != "chk_display"@);
    assert("p_jiggle"@[0] != "chk_away"@[0]);
    assert("p_jiggle"@ != "chk_away"@);
    assert("p_jiggle"@.len() != "chk_jiggle"@.len());
    assert("p_jiggle"@ != "chk_jiggle"@);
    assert("p_jiggle"@.len() != "sec_intervals"@.len());
    assert("p_jiggle"@ != "sec_intervals"@);
    assert("p_jiggle"@.len() != "lbl_interval"@.len());
    assert("p_jiggle"@ != "lbl_interval"@);
    assert("p_jiggle"@.len() != "lbl_jiggle"@.len());
    assert("p_jiggle"@ != "lbl_jiggle"@);
    assert("p_jiggle"@.len() != "sec_system"@.len());
    assert("p_jiggle"@ != "sec_system"@);
    assert("p_jiggle"@.len() != "chk_autostart"@.len());
    assert("p_jiggle"@ != "chk_autostart"@);
    assert("p_jiggle"@.len() != "chk_english"@.len());
    assert("p_jiggle"@ != "chk_english"@);
    assert("p_jiggle"@.len() != "btn_apply"@.len());
    assert("p_jiggle"@ != "btn_apply"@);
    assert("p_jiggle"@.len() != "btn_ok"@.len());
    assert("p_jiggle"@ != "btn_ok"@);
    assert("p_jiggle"@.len() != "btn_cancel"@.len());
    assert("p_jiggle"@ != "btn_cancel"@);
    assert("p_jiggle"@.len() != "err_title"@.len());
    assert("p_jiggle"@ != "err_title"@);
    assert("p_jiggle"@.len() != "err_interval"@.len());
    assert("p_jiggle"@ != "err_interval"@);
    assert("p_jiggle"@.len() != "err_jiggle"@.len());
    assert("p_jiggle"@ != "err_jiggle"@);
    assert("p_jiggle"@.len() != "err_autostart"@.len());
    assert("p_jiggle"@ != "err_autostart"@);
    assert("p_jiggle"@.len() != "tip_title"@.len());
    assert("p_jiggle"@ != "tip_title"@);
    assert("p_jiggle"@.len() != "p_sleep"@.len());
    assert("p_jiggle"@ != "p_sleep"@);
    assert("p_jiggle"@.len() != "p_display"@.len());
    assert("p_jiggle"@ != "p_display"@);
    assert("p_jiggle"@.len() != "p_away"@.len());
    assert("p_jiggle"@ != "p_away"@);
}

proof fn lemma_parts_size(cfg: Config)
    ensures
        bmp(parts_text(cfg)),
        parts_text(cfg).len() <= 48,
{
    lemma_part_words(cfg.lang);
    reveal_strlit("防睡眠");
    reveal_strlit("anti-sleep");
    reveal_strlit("常亮");
    reveal_strlit("display-on");
    reveal_strlit("保网络");
    reveal_strlit("keep-network");
    reveal_strlit("F15防锁屏");
    reveal_strlit("F15 anti-lock");
    let l = cfg.lang;
    let plus = seq!['+'];
    let e = Seq::<char>::empty();
    let a = tr_text(l, "p_sleep"@);
    let b = if cfg.display { plus + tr_text(l, "p_display"@) } else { e };
    let c = if cfg.away { plus + tr_text(l, "p_away"@) } else { e };
    let d = if cfg.jiggle { plus + tr_text(l, "p_jiggle"@) } else { e };
    assert(bmp(plus));
    assert(bmp(e));
    assert(bmp(a));
    lemma_bmp_add(plus, tr_text(l, "p_display"@));
    lemma_bmp_add(plus, tr_text(l, "p_away"@));
    lemma_bmp_add(plus, tr_text(l, "p_jiggle"@));
    lemma_bmp_add(a, b);
    lemma_bmp_add(a + b, c);
    lemma_bmp_add(a + b + c, d);
    assert(parts_text(cfg) == a + b + c + d);
}

/// The status line and the tray tip that `refresh_text` writes take at most
/// 400 bytes, so that rewriting them shortens any longer status line.
pub proof fn lemma_texts_fit(cfg: Config)
    ensures
        encode_utf8(status_text(cfg)).len() <= STATUS_MAX_BYTES,
        encode_utf8(tip_text(cfg)).len() <= STATUS_MAX_BYTES,
        byte_len(status_text(cfg)) <= STATUS_MAX_BYTES,
        byte_len(tip_text(cfg)) <= STATUS_MAX_BYTES,
{
    lemma_parts_size(cfg);
    lemma_dec_u64(cfg.interval);
    lemma_dec_u64(cfg.jiggle_interval);
    reveal_strlit("状态：已暂停（右键托盘 → 启用保持 可恢复）");
    reveal_strlit("Paused (right-click tray → Enable to resume)");
    reveal_strlit("状态：运行中 [");
    reveal_strlit("]  刷新");
    reveal_strlit("s / 心跳");
    reveal_strlit("s");
    reveal_strlit("Running [");
    reveal_strlit("]  refresh ");
    reveal_strlit("s / heartbeat ");
    reveal_strlit("no-sleep-agent 已暂停");
    reveal_strlit("no-sleep-agent paused");
    reveal_strlit("no-sleep-agent 运行中 [");
    reveal_strlit("no-sleep-agent running [");
    reveal_strlit("]");
    let p = parts_text(cfg);
    let n1 = dec(cfg.interval as nat);
    let n2 = dec(cfg.jiggle_interval as nat);
    let s = status_text(cfg);
    let t = tip_text(cfg);
    if !cfg.enabled {
        assert(bmp(s));
        assert(bmp(t));
    } else {
        let (w1, w2, w3, w4) = match cfg.lang {
            Lang::Cn => ("状态：运行中 ["@, "]  刷新"@, "s / 心跳"@, "s"@),
            Lang::En => ("Running ["@, "]  refresh "@, "s / heartbeat "@, "s"@),
        };
        assert(bmp(w1));
        assert(bmp(w2));
        assert(bmp(w3));
        assert(bmp(w4));
        lemma_bmp_add(w1, p);
        lemma_bmp_add(w1 + p, w2);
        lemma_bmp_add(w1 + p + w2, n1);
        lemma_bmp_add(w1 + p + w2 + n1, w3);
        lemma_bmp_add(w1 + p + w2 + n1 + w3, n2);
        lemma_bmp_add(w1 + p + w2 + n1 + w3 + n2, w4);
        assert(s == w1 + p + w2 + n1 + w3 + n2 + w4);
        let t1 = pick(cfg.lang, "no-sleep-agent 运行中 ["@, "no-sleep-agent running ["@);
        assert(bmp(t1));
        assert(bmp("]"@));
        lemma_bmp_add(t1, p);
        lemma_bmp_add(t1 + p, "]"@);
        assert(t == t1 + p + "]"@);
    }
    lemma_encode_bmp(s);
    lemma_encode_bmp(t);
}

} // verus!
