//! The state that the tray, the settings window and the timer thread
//! share: the settings, the status line, the tray tip, a change counter and
//! a pending notification.

use vstd::prelude::*;
use vstd::string::*;
use vstd::utf8::encode_utf8;

use crate::config::{default_config, Config};
use crate::lang::{pick, tr, tr_text, Lang};
use crate::power::AwakeAction;
use crate::sizes::lemma_texts_fit;
use crate::text::{dec, push_dec};

verus! {

/// The protections in force, joined with `+`.
pub open spec fn parts_text(cfg: Config) -> Seq<char> {
    let l = cfg.lang;
    tr_text(l, "p_sleep"@) + (if cfg.display {
        seq!['+'] + tr_text(l, "p_display"@)
    } else {
        Seq::empty()
    }) + (if cfg.away {
        seq!['+'] + tr_text(l, "p_away"@)
    } else {
        Seq::empty()
    }) + (if cfg.jiggle {
        seq!['+'] + tr_text(l, "p_jiggle"@)
    } else {
        Seq::empty()
    })
}

/// The status line of the settings window for the given settings.
pub open spec fn status_text(cfg: Config) -> Seq<char> {
    if !cfg.enabled {
        pick(
            cfg.lang,
            "状态：已暂停（右键托盘 → 启用保持 可恢复）"@,
            "Paused (right-click tray → Enable to resume)"@,
        )
    } else {
        match cfg.lang {
            Lang::Cn => "状态：运行中 ["@ + parts_text(cfg) + "]  刷新"@ + dec(cfg.interval as nat)
                + "s / 心跳"@ + dec(cfg.jiggle_interval as nat) + "s"@,
            Lang::En => "Running ["@ + parts_text(cfg) + "]  refresh "@ + dec(cfg.interval as nat)
                + "s / heartbeat "@ + dec(cfg.jiggle_interval as nat) + "s"@,
        }
    }
}

/// The tray tip for the given settings.
pub open spec fn tip_text(cfg: Config) -> Seq<char> {
    if !cfg.enabled {
        pick(cfg.lang, "no-sleep-agent 已暂停"@, "no-sleep-agent paused"@)
    } else {
        pick(cfg.lang, "no-sleep-agent 运行中 ["@, "no-sleep-agent running ["@) + parts_text(cfg)
            + "]"@
    }
}

/// The protections in force always start with anti-sleep; then each of
/// display-on, keep-network and F15 shows up, joined by `+`, exactly when
/// its own switch is on, whatever the other switches: turning the last
/// switch that is on off takes its part off the end.
pub proof fn lemma_parts_each_own_switch(cfg: Config)
    ensures
        ({
            let l = cfg.lang;
            let off = Config { display: false, away: false, jiggle: false, ..cfg };
            let no_j = Config { jiggle: false, ..cfg };
            let no_aj = Config { away: false, jiggle: false, ..cfg };
            &&& parts_text(off) == tr_text(l, "p_sleep"@)
            &&& parts_text((Config { jiggle: true, ..cfg })) == parts_text(no_j) + seq!['+']
                + tr_text(l, "p_jiggle"@)
            &&& parts_text((Config { away: true, ..no_j })) == parts_text(no_aj) + seq!['+']
                + tr_text(l, "p_away"@)
            &&& parts_text((Config { display: true, ..no_aj })) == parts_text(off) + seq!['+']
                + tr_text(l, "p_display"@)
        }),
{
    let l = cfg.lang;
    let off = Config { display: false, away: false, jiggle: false, ..cfg };
    let no_j = Config { jiggle: false, ..cfg };
    let no_aj = Config { away: false, jiggle: false, ..cfg };
    assert(parts_text(off) =~= tr_text(l, "p_sleep"@));
    assert(parts_text((Config { jiggle: true, ..cfg })) =~= parts_text(no_j) + seq!['+']
        + tr_text(l, "p_jiggle"@));
    assert(parts_text((Config { away: true, ..no_j })) =~= parts_text(no_aj) + seq!['+']
        + tr_text(l, "p_away"@));
    assert(parts_text((Config { display: true, ..no_aj })) =~= parts_text(off) + seq!['+']
        + tr_text(l, "p_display"@));
}

/// The running status line and tray tip carry the protections in force:
/// running, the status line is its opening text, the protections, and the
/// intervals; the tip its opening text, the protections and `]`. The
/// opening text depends on the language alone.
pub proof fn lemma_running_texts_carry_parts(cfg: Config)
    requires
        cfg.enabled,
    ensures
        ({
            let w: Seq<char> = if cfg.lang == Lang::Cn {
                "状态：运行中 ["@
            } else {
                "Running ["@
            };
            let t: Seq<char> = if cfg.lang == Lang::Cn {
                "no-sleep-agent 运行中 ["@
            } else {
                "no-sleep-agent running ["@
            };
            &&& status_text(cfg).take(w.len() as int) == w
            &&& status_text(cfg).subrange(w.len() as int, w.len() + parts_text(cfg).len() as int)
                == parts_text(cfg)
            &&& tip_text(cfg) == t + parts_text(cfg) + "]"@
        }),
{
    let w: Seq<char> = if cfg.lang == Lang::Cn {
        "状态：运行中 ["@
    } else {
        "Running ["@
    };
    let p = parts_text(cfg);
    let s = status_text(cfg);
    let rest = s.skip(w.len() + p.len() as int);
    assert(s =~= w + p + rest);
    assert(s.take(w.len() as int) =~= w);
    assert(s.subrange(w.len() as int, w.len() + p.len() as int) =~= p);
}

/// The settings with keeping awake switched over.
pub open spec fn toggled(cfg: Config) -> Config {
    Config { enabled: !cfg.enabled, ..cfg }
}

/// Switching keeping awake over twice gives back the settings, and with
/// them the status line and the tray tip, that were there before.
pub proof fn lemma_toggle_twice(cfg: Config)
    ensures
        toggled(toggled(cfg)) == cfg,
        status_text(toggled(toggled(cfg))) == status_text(cfg),
        tip_text(toggled(toggled(cfg))) == tip_text(cfg),
{
}

/// The length in bytes of a text, as `str::len` reports it.
pub open spec fn byte_len(s: Seq<char>) -> usize {
    encode_utf8(s).len() as usize
}

/// Status lines longer than this many bytes start over.
pub const STATUS_MAX_BYTES: usize = 400;

/// The status line after a keep-awake request at time `stamp`.
pub open spec fn refresh_note(status: Seq<char>, stamp: Seq<char>) -> Seq<char> {
    status + "  （"@ + stamp + " 刷新）"@
}

/// The status line after an F15 heartbeat at time `stamp`.
pub open spec fn heartbeat_note(status: Seq<char>, stamp: Seq<char>) -> Seq<char> {
    status + "  （"@ + stamp + " F15心跳）"@
}

/// The state shared between the interface and the timer.
pub struct Shared {
    /// The settings in force.
    pub cfg: Config,
    /// The status line of the settings window.
    pub status: String,
    /// The tray tip.
    pub tip: String,
    /// Counts the changes, so that the interface knows when to redraw.
    pub seq: u64,
    /// A notification waiting to be shown: title and text.
    pub balloon: Option<(String, String)>,
}

fn push_parts(s: &mut String, cfg: &Config)
    ensures
        final(s)@ == old(s)@ + parts_text(*cfg),
{
    let l = cfg.lang;
    s.append(tr(l, "p_sleep"));
    let ghost a = s@;
    if cfg.display {
        s.append("+");
        s.append(tr(l, "p_display"));
    }
    let ghost b = s@;
    if cfg.away {
        s.append("+");
        s.append(tr(l, "p_away"));
    }
    let ghost c = s@;
    if cfg.jiggle {
        s.append("+");
        s.append(tr(l, "p_jiggle"));
    }
    proof {
        reveal_strlit("+");
    }
    assert(final(s)@ =~= old(s)@ + parts_text(*cfg));
}

impl Shared {
    /// Rewrites the status line and the tray tip for the settings in force.
    pub fn refresh_text(&mut self)
        ensures
            final(self).status@ == status_text(old(self).cfg),
            final(self).tip@ == tip_text(old(self).cfg),
            final(self).cfg == old(self).cfg,
            final(self).seq == old(self).seq,
            final(self).balloon == old(self).balloon,
            byte_len(final(self).status@) <= STATUS_MAX_BYTES,
            byte_len(final(self).tip@) <= STATUS_MAX_BYTES,
    {
        proof {
            lemma_texts_fit(self.cfg);
        }
        let l = self.cfg.lang;
        if !self.cfg.enabled {
            self.status = match l {
                Lang::Cn => String::from_str("状态：已暂停（右键托盘 → 启用保持 可恢复）"),
                Lang::En => String::from_str("Paused (right-click tray → Enable to resume)"),
            };
            self.tip = match l {
                Lang::Cn => String::from_str("no-sleep-agent 已暂停"),
                Lang::En => String::from_str("no-sleep-agent paused"),
            };
            return;
        }
        let cfg = self.cfg;
        let mut status = String::new();
        let mut tip = String::new();
        match l {
            Lang::Cn => {
                status.append("状态：运行中 [");
                push_parts(&mut status, &cfg);
                status.append("]  刷新");
                push_dec(&mut status, cfg.interval);
                status.append("s / 心跳");
                push_dec(&mut status, cfg.jiggle_interval);
                status.append("s");
                tip.append("no-sleep-agent 运行中 [");
                push_parts(&mut tip, &cfg);
                tip.append("]");
            },
            Lang::En => {
                status.append("Running [");
                push_parts(&mut status, &cfg);
                status.append("]  refresh ");
                push_dec(&mut status, cfg.interval);
                status.append("s / heartbeat ");
                push_dec(&mut status, cfg.jiggle_interval);
                status.append("s");
                tip.append("no-sleep-agent running [");
                push_parts(&mut tip, &cfg);
                tip.append("]");
            },
        }
        assert(status@ =~= status_text(cfg));
        assert(tip@ =~= tip_text(cfg));
        self.status = status;
        self.tip = tip;
    }

    /// The shared state for the given settings: texts written, no change
    /// counted, no notification waiting.
    pub fn new(cfg: Config) -> (r: Shared)
        ensures
            r.cfg == cfg,
            r.status@ == status_text(cfg),
            r.tip@ == tip_text(cfg),
            r.seq == 0,
            r.balloon is None,
    {
        let mut s = Shared {
            cfg,
            status: String::new(),
            tip: String::new(),
            seq: 0,
            balloon: None,
        };
        s.refresh_text();
        s
    }

    /// Notes a keep-awake request made at time `stamp` on the status line;
    /// a status line that grows past the limit starts over from the settings.
    pub fn note_refresh(&mut self, stamp: &str)
        requires
            old(self).seq < u64::MAX,
        ensures
            ({
                let noted = refresh_note(old(self).status@, stamp@);
                if byte_len(noted) > STATUS_MAX_BYTES {
                    &&& final(self).status@ == status_text(old(self).cfg)
                    &&& final(self).tip@ == tip_text(old(self).cfg)
                } else {
                    &&& final(self).status@ == noted
                    &&& final(self).tip == old(self).tip
                }
            }),
            byte_len(final(self).status@) <= STATUS_MAX_BYTES,
            final(self).seq == old(self).seq + 1,
            final(self).cfg == old(self).cfg,
            final(self).balloon == old(self).balloon,
    {
        self.status.append("  （");
        self.status.append(stamp);
        self.status.append(" 刷新）");
        assert(self.status@ =~= refresh_note(old(self).status@, stamp@));
        if self.status.as_str().len() > STATUS_MAX_BYTES {
            self.refresh_text();
        }
        self.seq = self.seq + 1;
    }

    /// Notes an F15 heartbeat sent at time `stamp` on the status line; a
    /// status line that grows past the limit starts over from the settings.
    pub fn note_heartbeat(&mut self, stamp: &str)
        requires
            old(self).seq < u64::MAX,
        ensures
            ({
                let noted = heartbeat_note(old(self).status@, stamp@);
                if byte_len(noted) > STATUS_MAX_BYTES {
                    &&& final(self).status@ == status_text(old(self).cfg)
                    &&& final(self).tip@ == tip_text(old(self).cfg)
                } else {
                    &&& final(self).status@ == noted
                    &&& final(self).tip == old(self).tip
                }
            }),
            byte_len(final(self).status@) <= STATUS_MAX_BYTES,
            final(self).seq == old(self).seq + 1,
            final(self).cfg == old(self).cfg,
            final(self).balloon == old(self).balloon,
    {
        self.status.append("  （");
        self.status.append(stamp);
        self.status.append(" F15心跳）");
        assert(self.status@ =~= heartbeat_note(old(self).status@, stamp@));
        if self.status.as_str().len() > STATUS_MAX_BYTES {
            self.refresh_text();
        }
        self.seq = self.seq + 1;
    }

    /// Puts new settings in force, as the Apply button does: texts
    /// rewritten, a change counted; says what the power request should do.
    pub fn apply_config(&mut self, cfg: Config) -> (r: AwakeAction)
        requires
            old(self).seq < u64::MAX,
        ensures
            final(self).cfg == cfg,
            final(self).status@ == status_text(cfg),
            final(self).tip@ == tip_text(cfg),
            final(self).seq == old(self).seq + 1,
            final(self).balloon == old(self).balloon,
            r == (if !cfg.enabled && old(self).cfg.enabled {
                AwakeAction::Release
            } else if cfg.enabled {
                AwakeAction::Request { display: cfg.display, away: cfg.away }
            } else {
                AwakeAction::Keep
            }),
    {
        let was_enabled = self.cfg.enabled;
        self.cfg = cfg;
        self.refresh_text();
        self.seq = self.seq + 1;
        if !cfg.enabled && was_enabled {
            AwakeAction::Release
        } else if cfg.enabled {
            AwakeAction::Request { display: cfg.display, away: cfg.away }
        } else {
            AwakeAction::Keep
        }
    }

    /// Switches keeping awake on or off, as the tray menu's Enable item
    /// does; says what the power request should do.
    pub fn toggle_enabled(&mut self) -> (r: AwakeAction)
        requires
            old(self).seq < u64::MAX,
        ensures
            final(self).cfg == toggled(old(self).cfg),
            final(self).status@ == status_text(final(self).cfg),
            final(self).tip@ == tip_text(final(self).cfg),
            final(self).seq == old(self).seq + 1,
            final(self).balloon == old(self).balloon,
            r == (if final(self).cfg.enabled {
                AwakeAction::Request { display: old(self).cfg.display, away: old(self).cfg.away }
            } else {
                AwakeAction::Release
            }),
    {
        self.cfg.enabled = !self.cfg.enabled;
        self.refresh_text();
        self.seq = self.seq + 1;
        if self.cfg.enabled {
            AwakeAction::Request { display: self.cfg.display, away: self.cfg.away }
        } else {
            AwakeAction::Release
        }
    }

    /// Switches the interface language, as the English checkbox does:
    /// texts rewritten, a change counted.
    pub fn set_lang(&mut self, lang: Lang)
        requires
            old(self).seq < u64::MAX,
        ensures
            final(self).cfg == (Config { lang, ..old(self).cfg }),
            final(self).status@ == status_text(final(self).cfg),
            final(self).tip@ == tip_text(final(self).cfg),
            final(self).seq == old(self).seq + 1,
            final(self).balloon == old(self).balloon,
    {
        self.cfg.lang = lang;
        self.refresh_text();
        self.seq = self.seq + 1;
    }

    /// Leaves a notification for the interface to show, a change counted.
    pub fn post_balloon(&mut self, title: String, text: String)
        requires
            old(self).seq < u64::MAX,
        ensures
            final(self).balloon == Some((title, text)),
            final(self).seq == old(self).seq + 1,
            final(self).cfg == old(self).cfg,
            final(self).status == old(self).status,
            final(self).tip == old(self).tip,
    {
        self.balloon = Some((title, text));
        self.seq = self.seq + 1;
    }
}

impl Default for Shared {
    fn default() -> (r: Shared)
        ensures
            r.cfg == default_config(),
            r.status@ == status_text(default_config()),
            r.tip@ == tip_text(default_config()),
            r.seq == 0,
            r.balloon is None,
    {
        Shared::new(Config::default())
    }
}

} // verus!
