//! The once-a-second timer of the tray mode and the timer of the console
//! mode: when to renew the keep-awake request and when to press F15.

use vstd::prelude::*;
use vstd::string::*;

use crate::config::Config;
use crate::lang::{tr, tr_text, Lang};
use crate::text::{dec, push_dec};

verus! {

/// What a timer step asks for.
#[derive(Clone, Copy, Debug, PartialEq, Eq, Structural)]
pub struct TimerAction {
    /// Renew the keep-awake request and note it on the status line.
    pub refresh: bool,
    /// Press F15 and note it on the status line.
    pub heartbeat: bool,
}

/// The counters of the tray mode's timer thread, which wakes once a second.
#[derive(Clone, Copy, Debug)]
pub struct Timer {
    /// Seconds counted towards the next keep-awake request.
    pub tick: u64,
    /// Seconds counted towards the next F15 press.
    pub jiggle_tick: u64,
    /// The settings seen at the last step.
    pub last: Option<Config>,
}

/// Whether the settings that drive the timer differ (the language does not).
pub open spec fn timing_changed(a: Config, b: Config) -> bool {
    ||| a.interval != b.interval
    ||| a.jiggle_interval != b.jiggle_interval
    ||| a.enabled != b.enabled
    ||| a.display != b.display
    ||| a.away != b.away
    ||| a.jiggle != b.jiggle
}

/// Whether a step with settings `snap` starts the counts over.
pub open spec fn restarts(last: Option<Config>, snap: Config) -> bool {
    match last {
        Some(c) => timing_changed(c, snap),
        None => false,
    }
}

/// The counters after the restart check.
pub open spec fn counts_after_restart(t: Timer, snap: Config) -> (u64, u64) {
    if restarts(t.last, snap) {
        (0, 0)
    } else {
        (t.tick, t.jiggle_tick)
    }
}

/// One second of the tray mode's timer with settings `snap`: the counts
/// start over when the timing settings changed; nothing happens while
/// keeping awake is off; else the request is renewed every `interval`
/// seconds and, where F15 is on, F15 is pressed every `jiggle_interval`
/// seconds.
pub open spec fn timer_next(t: Timer, snap: Config) -> (Timer, TimerAction) {
    let (tick0, jt0) = counts_after_restart(t, snap);
    if !snap.enabled {
        (
            Timer { tick: tick0, jiggle_tick: jt0, last: Some(snap) },
            TimerAction { refresh: false, heartbeat: false },
        )
    } else {
        let tick1 = (tick0 + 1) as u64;
        let refresh = tick1 % snap.interval == 0;
        if snap.jiggle {
            let jt1 = (jt0 + 1) as u64;
            if jt1 >= snap.jiggle_interval {
                (
                    Timer { tick: tick1, jiggle_tick: 0, last: Some(snap) },
                    TimerAction { refresh, heartbeat: true },
                )
            } else {
                (
                    Timer { tick: tick1, jiggle_tick: jt1, last: Some(snap) },
                    TimerAction { refresh, heartbeat: false },
                )
            }
        } else {
            (
                Timer { tick: tick1, jiggle_tick: jt0, last: Some(snap) },
                TimerAction { refresh, heartbeat: false },
            )
        }
    }
}

/// A step with settings `snap` does not overflow the counters.
pub open spec fn step_fits(t: Timer, snap: Config) -> bool {
    let (tick0, jt0) = counts_after_restart(t, snap);
    &&& snap.enabled ==> snap.interval > 0
    &&& snap.enabled ==> tick0 < u64::MAX
    &&& snap.enabled && snap.jiggle ==> jt0 < u64::MAX
}

/// A timer that has counted nothing.
pub open spec fn fresh_timer() -> Timer {
    Timer { tick: 0, jiggle_tick: 0, last: None }
}

impl Timer {
    pub fn new() -> (r: Timer)
        ensures
            r == fresh_timer(),
    {
        Timer { tick: 0, jiggle_tick: 0, last: None }
    }

    /// One second of the timer with the settings in force.
    pub fn step(&mut self, snap: Config) -> (r: TimerAction)
        requires
            step_fits(*old(self), snap),
        ensures
            (*final(self), r) == timer_next(*old(self), snap),
    {
        let changed = match self.last {
            Some(c) => c.interval != snap.interval || c.jiggle_interval != snap.jiggle_interval
                || c.enabled != snap.enabled || c.display != snap.display || c.away != snap.away
                || c.jiggle != snap.jiggle,
            None => false,
        };
        if changed {
            self.tick = 0;
            self.jiggle_tick = 0;
        }
        self.last = Some(snap);
        if !snap.enabled {
            return TimerAction { refresh: false, heartbeat: false };
        }
        self.tick = self.tick + 1;
        let refresh = self.tick % snap.interval == 0;
        let mut heartbeat = false;
        if snap.jiggle {
            self.jiggle_tick = self.jiggle_tick + 1;
            if self.jiggle_tick >= snap.jiggle_interval {
                self.jiggle_tick = 0;
                heartbeat = true;
            }
        }
        TimerAction { refresh, heartbeat }
    }
}

/// One second of the tray timer: the counts start over exactly when the
/// timing settings changed; while keeping awake is off nothing is asked
/// for and nothing counted; else the refresh count grows by one and the
/// request is renewed when it reaches a multiple of the refresh interval;
/// F15 is pressed only where F15 is on, when its count reaches the
/// heartbeat interval, and its count then starts over.
pub proof fn lemma_timer_step(t: Timer, snap: Config)
    requires
        step_fits(t, snap),
    ensures
        ({
            let (t2, a) = timer_next(t, snap);
            let (tick0, jt0) = counts_after_restart(t, snap);
            &&& restarts(t.last, snap) ==> tick0 == 0 && jt0 == 0
            &&& !restarts(t.last, snap) ==> tick0 == t.tick && jt0 == t.jiggle_tick
            &&& t2.last == Some(snap)
            &&& !snap.enabled ==> a == (TimerAction { refresh: false, heartbeat: false })
                && t2.tick == tick0 && t2.jiggle_tick == jt0
            &&& snap.enabled ==> t2.tick == tick0 + 1 && a.refresh == (t2.tick % snap.interval == 0)
            &&& a.heartbeat ==> snap.enabled && snap.jiggle && t2.jiggle_tick == 0
            &&& snap.enabled && snap.jiggle ==> a.heartbeat == (jt0 + 1 >= snap.jiggle_interval)
            &&& snap.enabled && snap.jiggle && !a.heartbeat ==> t2.jiggle_tick == jt0 + 1
            &&& !(snap.enabled && snap.jiggle) ==> t2.jiggle_tick == jt0
        }),
{
}

/// The timer after `n` steps with the same settings.
pub open spec fn run_timer(t: Timer, snap: Config, n: nat) -> Timer
    decreases n,
{
    if n == 0 {
        t
    } else {
        timer_next(run_timer(t, snap, (n - 1) as nat), snap).0
    }
}

/// What the `n`-th of a run of steps with the same settings asks for.
pub open spec fn action_at(t: Timer, snap: Config, n: nat) -> TimerAction {
    timer_next(run_timer(t, snap, (n - 1) as nat), snap).1
}

proof fn lemma_mod_step(n: nat, m: nat)
    requires
        n >= 1,
        m >= 1,
    ensures
        ((n - 1) as nat) % m + 1 <= m,
        (((n - 1) as nat) % m + 1 == m) == (n % m == 0),
        ((n - 1) as nat) % m + 1 < m ==> n % m == ((n - 1) as nat) % m + 1,
{
    vstd::arithmetic::div_mod::lemma_mod_bound((n - 1) as int, m as int);
    vstd::arithmetic::div_mod::lemma_add_mod_noop((n - 1) as int, 1, m as int);
    if m == 1 {
    } else {
        vstd::arithmetic::div_mod::lemma_small_mod(1, m);
        let r = ((n - 1) as nat) % m;
        if r + 1 == m {
            vstd::arithmetic::div_mod::lemma_mod_self_0(m as int);
        } else {
            vstd::arithmetic::div_mod::lemma_small_mod((r + 1) as nat, m);
        }
    }
}

/// The counters after `n` seconds with the same settings, from nothing.
proof fn lemma_run_timer(snap: Config, n: nat)
    requires
        snap.enabled,
        snap.interval > 0,
        n < u64::MAX,
    ensures
        run_timer(fresh_timer(), snap, n).tick == n,
        run_timer(fresh_timer(), snap, n).jiggle_tick == (if snap.jiggle
            && snap.jiggle_interval > 0 {
            n % (snap.jiggle_interval as nat)
        } else {
            0
        }),
        n > 0 ==> run_timer(fresh_timer(), snap, n).last == Some(snap),
        n == 0 ==> run_timer(fresh_timer(), snap, n).last is None,
    decreases n,
{
    if n > 0 {
        lemma_run_timer(snap, (n - 1) as nat);
        if snap.jiggle_interval > 0 {
            lemma_mod_step(n, snap.jiggle_interval as nat);
            if n == 1 {
                vstd::arithmetic::div_mod::lemma_small_mod(0, snap.jiggle_interval as nat);
            }
        }
    }
}

/// A change of the timing settings starts the counts over: the step goes
/// as from a timer that has counted nothing.
pub proof fn lemma_timer_restart(t: Timer, snap: Config)
    requires
        restarts(t.last, snap),
    ensures
        timer_next(t, snap) == timer_next(fresh_timer(), snap),
{
}

/// After a change of the timing settings, a run with the new settings goes
/// second by second as from a timer that has counted nothing.
pub proof fn lemma_run_after_change(t: Timer, snap: Config, n: nat)
    requires
        restarts(t.last, snap),
        n >= 1,
    ensures
        run_timer(t, snap, n) == run_timer(fresh_timer(), snap, n),
    decreases n,
{
    if n == 1 {
        assert(run_timer(t, snap, 0) == t);
        assert(run_timer(fresh_timer(), snap, 0) == fresh_timer());
    } else {
        lemma_run_after_change(t, snap, (n - 1) as nat);
    }
}

/// While the settings stay the same and keeping awake is on, the `n`-th
/// second after the start, or after a change of the timing settings,
/// renews the keep-awake request exactly when `n` is a multiple of the
/// refresh interval, and presses F15 exactly when F15 is on and `n` is a
/// multiple of the heartbeat interval (every second where that is 0).
pub proof fn lemma_timer_period(t: Timer, snap: Config, n: nat)
    requires
        t == fresh_timer() || restarts(t.last, snap),
        snap.enabled,
        snap.interval > 0,
        1 <= n < u64::MAX,
    ensures
        action_at(t, snap, n).refresh == (n % (snap.interval as nat) == 0),
        action_at(t, snap, n).heartbeat == (snap.jiggle && (snap.jiggle_interval == 0 || n % (
        snap.jiggle_interval as nat) == 0)),
{
    if t != fresh_timer() {
        if n == 1 {
            lemma_timer_restart(t, snap);
            assert(run_timer(t, snap, 0) == t);
        } else {
            lemma_run_after_change(t, snap, (n - 1) as nat);
        }
    }
    assert(action_at(t, snap, n) == action_at(fresh_timer(), snap, n));
    lemma_run_timer(snap, (n - 1) as nat);
    if snap.jiggle_interval > 0 {
        lemma_mod_step(n, snap.jiggle_interval as nat);
        if n == 1 {
            vstd::arithmetic::div_mod::lemma_small_mod(0, snap.jiggle_interval as nat);
        }
    }
}

/// While keeping awake is off, no second asks for anything: no request,
/// no F15 press, whatever the intervals.
pub proof fn lemma_timer_paused(t: Timer, snap: Config, n: nat)
    requires
        !snap.enabled,
        n >= 1,
    ensures
        action_at(t, snap, n) == (TimerAction { refresh: false, heartbeat: false }),
{
}

/// The timer of the console mode, which wakes once per refresh interval.
#[derive(Clone, Copy, Debug)]
pub struct ConsoleTimer {
    /// Seconds counted towards the next F15 press.
    pub elapsed: u64,
}

/// One round of the console mode: nothing while keeping awake is off;
/// else the request is renewed, the interval counted, and F15 pressed once
/// the count reaches the heartbeat interval (where F15 is on).
pub open spec fn console_next(t: ConsoleTimer, cfg: Config) -> (ConsoleTimer, TimerAction) {
    if !cfg.enabled {
        (t, TimerAction { refresh: false, heartbeat: false })
    } else {
        let e = (t.elapsed + cfg.interval) as u64;
        if cfg.jiggle && e >= cfg.jiggle_interval {
            (ConsoleTimer { elapsed: 0 }, TimerAction { refresh: true, heartbeat: true })
        } else {
            (ConsoleTimer { elapsed: e }, TimerAction { refresh: true, heartbeat: false })
        }
    }
}

/// A console round: nothing at all while keeping awake is off; else the
/// request is renewed, and F15 is pressed exactly when F15 is on and the
/// counted time, this round included, reaches the heartbeat interval; the
/// count then starts over, else it grows by the refresh interval.
pub proof fn lemma_console_round(t: ConsoleTimer, cfg: Config)
    requires
        t.elapsed + cfg.interval <= u64::MAX,
    ensures
        !cfg.enabled ==> console_next(t, cfg).0 == t,
        console_next(t, cfg).1.refresh == cfg.enabled,
        console_next(t, cfg).1.heartbeat == (cfg.enabled && cfg.jiggle && t.elapsed + cfg.interval
            >= cfg.jiggle_interval),
        !cfg.jiggle ==> !console_next(t, cfg).1.heartbeat,
        cfg.enabled && console_next(t, cfg).1.heartbeat ==> console_next(t, cfg).0.elapsed == 0,
        cfg.enabled && !console_next(t, cfg).1.heartbeat ==> console_next(t, cfg).0.elapsed
            == t.elapsed + cfg.interval,
{
}

impl ConsoleTimer {
    /// Whether the console mode asks to stay awake at its start: only where
    /// keeping awake is on.
    pub fn start(cfg: &Config) -> (r: bool)
        ensures
            r == cfg.enabled,
    {
        cfg.enabled
    }

    pub fn new() -> (r: ConsoleTimer)
        ensures
            r.elapsed == 0,
    {
        ConsoleTimer { elapsed: 0 }
    }

    /// One round of the console mode with the settings `cfg`.
    pub fn step(&mut self, cfg: &Config) -> (r: TimerAction)
        requires
            cfg.enabled ==> old(self).elapsed + cfg.interval <= u64::MAX,
        ensures
            (*final(self), r) == console_next(*old(self), *cfg),
    {
        if !cfg.enabled {
            return TimerAction { refresh: false, heartbeat: false };
        }
        self.elapsed = self.elapsed + cfg.interval;
        if cfg.jiggle && self.elapsed >= cfg.jiggle_interval {
            self.elapsed = 0;
            TimerAction { refresh: true, heartbeat: true }
        } else {
            TimerAction { refresh: true, heartbeat: false }
        }
    }
}

/// The policy line that the console mode prints at its start.
pub open spec fn console_policy_spec(cfg: Config) -> Seq<char> {
    let l = cfg.lang;
    (if l == Lang::Cn {
        "策略"@
    } else {
        "Policy"@
    }) + ": "@ + (if cfg.display {
        tr_text(l, "con_disp"@)
    } else {
        tr_text(l, "con_nodisp"@)
    }) + " + "@ + (if cfg.away {
        tr_text(l, "con_away"@)
    } else {
        tr_text(l, "con_noaway"@)
    }) + " + "@ + (if cfg.jiggle {
        "F15 "@ + dec(cfg.jiggle_interval as nat) + "s"@
    } else {
        tr_text(l, "con_nojig"@)
    }) + "，刷新"@ + dec(cfg.interval as nat) + "s / refresh "@ + dec(cfg.interval as nat)
        + "s"@
}

/// The policy line that the console mode prints at its start.
pub fn console_policy_line(cfg: &Config) -> (r: String)
    ensures
        r@ == console_policy_spec(*cfg),
{
    let l = cfg.lang;
    let mut s = String::new();
    if l == Lang::Cn {
        s.append("策略");
    } else {
        s.append("Policy");
    }
    s.append(": ");
    if cfg.display {
        s.append(tr(l, "con_disp"));
    } else {
        s.append(tr(l, "con_nodisp"));
    }
    s.append(" + ");
    if cfg.away {
        s.append(tr(l, "con_away"));
    } else {
        s.append(tr(l, "con_noaway"));
    }
    s.append(" + ");
    if cfg.jiggle {
        s.append("F15 ");
        push_dec(&mut s, cfg.jiggle_interval);
        s.append("s");
    } else {
        s.append(tr(l, "con_nojig"));
    }
    s.append("，刷新");
    push_dec(&mut s, cfg.interval);
    s.append("s / refresh ");
    push_dec(&mut s, cfg.interval);
    s.append("s");
    assert(s@ =~= console_policy_spec(*cfg));
    s
}

} // verus!
