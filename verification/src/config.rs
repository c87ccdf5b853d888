//! The settings and their file format: one `key=value` entry per line,
//! blank lines and lines starting with `#` or `;` ignored.

use vstd::prelude::*;
use vstd::string::*;

use crate::lang::{lang_code, lang_from_range, lang_of, Lang};
use crate::text::{
    all_digits, chars_of, dec, digit_char, digits_value, is_digit, is_ws,
    parse_u64_range, parse_u64_spec, push_dec, range_eq, trim, trim_end, trim_range, trim_start,
    unsigned_digits,
};

verus! {

/// The settings of the tool.
#[derive(Clone, Copy, Debug, PartialEq, Eq, Structural)]
pub struct Config {
    /// Keep the machine awake at all.
    pub enabled: bool,
    /// Keep the display on as well.
    pub display: bool,
    /// Ask for away mode, which keeps the network up.
    pub away: bool,
    /// Press F15 now and then against idle locks.
    pub jiggle: bool,
    /// Seconds between two keep-awake requests.
    pub interval: u64,
    /// Seconds between two F15 presses.
    pub jiggle_interval: u64,
    /// Interface language.
    pub lang: Lang,
}

pub const MIN_INTERVAL: u64 = 5;
pub const MAX_INTERVAL: u64 = 600;
pub const MIN_JIGGLE_INTERVAL: u64 = 30;
pub const MAX_JIGGLE_INTERVAL: u64 = 3600;

/// The settings before any file or option changes them.
pub open spec fn default_config() -> Config {
    Config {
        enabled: true,
        display: true,
        away: true,
        jiggle: true,
        interval: 30,
        jiggle_interval: 240,
        lang: Lang::Cn,
    }
}

/// `n.clamp(lo, hi)`.
pub open spec fn clamp(n: u64, lo: u64, hi: u64) -> u64 {
    if n < lo {
        lo
    } else if n > hi {
        hi
    } else {
        n
    }
}

pub fn clamp_u64(n: u64, lo: u64, hi: u64) -> (r: u64)
    requires
        lo <= hi,
    ensures
        r == clamp(n, lo, hi),
{
    if n < lo {
        lo
    } else if n > hi {
        hi
    } else {
        n
    }
}

/// Both intervals lie in their allowed ranges.
pub open spec fn intervals_in_range(cfg: Config) -> bool {
    &&& MIN_INTERVAL <= cfg.interval <= MAX_INTERVAL
    &&& MIN_JIGGLE_INTERVAL <= cfg.jiggle_interval <= MAX_JIGGLE_INTERVAL
}

/// The settings with both intervals clamped into their ranges.
pub open spec fn clamped(cfg: Config) -> Config {
    Config {
        interval: clamp(cfg.interval, MIN_INTERVAL, MAX_INTERVAL),
        jiggle_interval: clamp(cfg.jiggle_interval, MIN_JIGGLE_INTERVAL, MAX_JIGGLE_INTERVAL),
        ..cfg
    }
}

/// The index of the first `c` in `s`, or `s.len()` where there is none.
pub open spec fn find(s: Seq<char>, c: char) -> int
    decreases s.len(),
{
    if s.len() == 0 {
        0
    } else if s[0] == c {
        0
    } else {
        1 + find(s.drop_first(), c)
    }
}

/// One `key=value` entry, key and value already trimmed.
pub open spec fn apply_entry(cfg: Config, k: Seq<char>, v: Seq<char>) -> Config {
    if k == "enabled"@ {
        Config { enabled: v == "1"@, ..cfg }
    } else if k == "display"@ {
        Config { display: v == "1"@, ..cfg }
    } else if k == "away"@ {
        Config { away: v == "1"@, ..cfg }
    } else if k == "jiggle"@ {
        Config { jiggle: v == "1"@, ..cfg }
    } else if k == "interval"@ {
        match parse_u64_spec(v) {
            Some(n) => Config { interval: clamp(n, MIN_INTERVAL, MAX_INTERVAL), ..cfg },
            None => cfg,
        }
    } else if k == "jiggle_interval"@ {
        match parse_u64_spec(v) {
            Some(n) => Config {
                jiggle_interval: clamp(n, MIN_JIGGLE_INTERVAL, MAX_JIGGLE_INTERVAL),
                ..cfg
            },
            None => cfg,
        }
    } else if k == "lang"@ {
        Config { lang: lang_of(v), ..cfg }
    } else {
        cfg
    }
}

/// One line of the file: trimmed; empty lines and comments change
/// nothing, nor does a line without `=`; else the text before the first
/// `=` is the key and the text after it the value.
pub open spec fn apply_line(cfg: Config, raw: Seq<char>) -> Config {
    let t = trim(raw);
    if t.len() == 0 || t[0] == '#' || t[0] == ';' {
        cfg
    } else {
        let j = find(t, '=');
        if j == t.len() {
            cfg
        } else {
            apply_entry(cfg, trim(t.take(j)), trim(t.skip(j + 1)))
        }
    }
}

/// The lines of `s`, split at `\n`, applied in order.
pub open spec fn apply_lines(cfg: Config, s: Seq<char>) -> Config
    decreases s.len(),
{
    if s.len() == 0 {
        cfg
    } else {
        let e = find(s, '\n');
        let next = apply_line(cfg, s.take(e));
        if e >= s.len() {
            next
        } else {
            proof {
                lemma_find_bounds(s, '\n');
            }
            apply_lines(next, s.skip(e + 1))
        }
    }
}

/// The settings that a configuration file holds, over the defaults.
pub open spec fn config_from_text(s: Seq<char>) -> Config {
    apply_lines(default_config(), s)
}

pub open spec fn bit(b: bool) -> Seq<char> {
    if b {
        "1"@
    } else {
        "0"@
    }
}

/// One line `key=value` with its line end.
pub open spec fn entry(k: Seq<char>, v: Seq<char>) -> Seq<char> {
    k + seq!['='] + v + seq!['\n']
}

/// The comment line that opens a saved file.
pub open spec fn config_header() -> Seq<char> {
    "# no-sleep-agent-tray 配置（设置窗口修改后自动保存）"@
}

/// The text of a saved configuration file.
pub open spec fn config_text_spec(cfg: Config) -> Seq<char> {
    config_header() + seq!['\n'] + entry("enabled"@, bit(cfg.enabled)) + entry(
        "display"@,
        bit(cfg.display),
    ) + entry("away"@, bit(cfg.away)) + entry("jiggle"@, bit(cfg.jiggle)) + entry(
        "interval"@,
        dec(cfg.interval as nat),
    ) + entry("jiggle_interval"@, dec(cfg.jiggle_interval as nat)) + entry(
        "lang"@,
        lang_code(cfg.lang),
    )
}

impl Default for Config {
    fn default() -> (r: Config)
        ensures
            r == default_config(),
    {
        Config {
            enabled: true,
            display: true,
            away: true,
            jiggle: true,
            interval: 30,
            jiggle_interval: 240,
            lang: Lang::Cn,
        }
    }
}

/// The index of the first `c` in `v[lo..hi]`, or `hi`.
pub fn find_range(v: &Vec<char>, lo: usize, hi: usize, c: char) -> (r: usize)
    requires
        lo <= hi <= v.len(),
    ensures
        lo <= r <= hi,
        r - lo == find(v@.subrange(lo as int, hi as int), c),
{
    let mut i = lo;
    while i < hi && v[i] != c
        invariant
            lo <= i <= hi <= v.len(),
            find(v@.subrange(lo as int, hi as int), c) == (i - lo) + find(
                v@.subrange(i as int, hi as int),
                c,
            ),
        decreases hi - i,
    {
        assert(v@.subrange(i as int, hi as int).drop_first() =~= v@.subrange(i + 1, hi as int));
        i = i + 1;
    }
    i
}

fn apply_entry_range(cfg: &mut Config, v: &Vec<char>, ka: usize, kb: usize, va: usize, vb: usize)
    requires
        ka <= kb <= v.len(),
        va <= vb <= v.len(),
    ensures
        *final(cfg) == apply_entry(
            *old(cfg),
            v@.subrange(ka as int, kb as int),
            v@.subrange(va as int, vb as int),
        ),
{
    if range_eq(v, ka, kb, "enabled") {
        cfg.enabled = range_eq(v, va, vb, "1");
    } else if range_eq(v, ka, kb, "display") {
        cfg.display = range_eq(v, va, vb, "1");
    } else if range_eq(v, ka, kb, "away") {
        cfg.away = range_eq(v, va, vb, "1");
    } else if range_eq(v, ka, kb, "jiggle") {
        cfg.jiggle = range_eq(v, va, vb, "1");
    } else if range_eq(v, ka, kb, "interval") {
        if let Some(n) = parse_u64_range(v, va, vb) {
            cfg.interval = clamp_u64(n, MIN_INTERVAL, MAX_INTERVAL);
        }
    } else if range_eq(v, ka, kb, "jiggle_interval") {
        if let Some(n) = parse_u64_range(v, va, vb) {
            cfg.jiggle_interval = clamp_u64(n, MIN_JIGGLE_INTERVAL, MAX_JIGGLE_INTERVAL);
        }
    } else if range_eq(v, ka, kb, "lang") {
        cfg.lang = lang_from_range(v, va, vb);
    }
}

fn apply_line_range(cfg: &mut Config, v: &Vec<char>, lo: usize, hi: usize)
    requires
        lo <= hi <= v.len(),
    ensures
        *final(cfg) == apply_line(*old(cfg), v@.subrange(lo as int, hi as int)),
{
    let (a, b) = trim_range(v, lo, hi);
    let ghost t = v@.subrange(a as int, b as int);
    if a == b || v[a] == '#' || v[a] == ';' {
        return;
    }
    let j = find_range(v, a, b, '=');
    if j == b {
        return;
    }
    assert(t.take(j - a) =~= v@.subrange(a as int, j as int));
    assert(t.skip(j - a + 1) =~= v@.subrange(j + 1, b as int));
    let (ka, kb) = trim_range(v, a, j);
    let (va, vb) = trim_range(v, j + 1, b);
    apply_entry_range(cfg, v, ka, kb, va, vb);
}

/// The settings that the text of a configuration file holds, over the
/// defaults, as the tool reads its `config.ini`.
pub fn parse_config(text: &str) -> (r: Config)
    ensures
        r == config_from_text(text@),
        intervals_in_range(r),
{
    let v = chars_of(text);
    let mut cfg = Config::default();
    let mut i: usize = 0;
    assert(v@.skip(0) =~= v@);
    while i < v.len()
        invariant
            0 <= i <= v.len(),
            v@ == text@,
            apply_lines(cfg, v@.skip(i as int)) == config_from_text(text@),
        decreases v.len() - i,
    {
        let e = find_range(&v, i, v.len(), '\n');
        let ghost s = v@.skip(i as int);
        assert(v@.subrange(i as int, v@.len() as int) =~= s);
        assert(s.take(e - i) =~= v@.subrange(i as int, e as int));
        apply_line_range(&mut cfg, &v, i, e);
        if e >= v.len() {
            i = v.len();
            assert(v@.skip(i as int) =~= Seq::<char>::empty());
        } else {
            assert(s.skip(e - i + 1) =~= v@.skip(e + 1));
            i = e + 1;
        }
    }
    assert(v@.skip(i as int) =~= Seq::<char>::empty());
    proof {
        lemma_config_from_text_in_range(text@);
    }
    cfg
}

fn push_entry(s: &mut String, key: &str, value: &str)
    ensures
        final(s)@ == old(s)@ + entry(key@, value@),
{
    s.append(key);
    s.append("=");
    s.append(value);
    s.append("\n");
    proof {
        reveal_strlit("=");
        reveal_strlit("\n");
    }
    assert(final(s)@ =~= old(s)@ + entry(key@, value@));
}

fn bit_str(b: bool) -> (r: &'static str)
    ensures
        r@ == bit(b),
{
    if b {
        "1"
    } else {
        "0"
    }
}

/// The text that saving the settings writes to `config.ini`.
pub fn config_text(cfg: &Config) -> (r: String)
    ensures
        r@ == config_text_spec(*cfg),
{
    let mut s = String::new();
    s.append("# no-sleep-agent-tray 配置（设置窗口修改后自动保存）");
    s.append("\n");
    proof {
        reveal_strlit("\n");
    }
    push_entry(&mut s, "enabled", bit_str(cfg.enabled));
    push_entry(&mut s, "display", bit_str(cfg.display));
    push_entry(&mut s, "away", bit_str(cfg.away));
    push_entry(&mut s, "jiggle", bit_str(cfg.jiggle));
    let mut n = String::new();
    push_dec(&mut n, cfg.interval);
    push_entry(&mut s, "interval", n.as_str());
    let mut m = String::new();
    push_dec(&mut m, cfg.jiggle_interval);
    push_entry(&mut s, "jiggle_interval", m.as_str());
    push_entry(&mut s, "lang", cfg.lang.code());
    assert(s@ =~= config_text_spec(*cfg));
    s
}

/// Every entry keeps both intervals in their ranges.
proof fn lemma_apply_line_in_range(cfg: Config, raw: Seq<char>)
    requires
        intervals_in_range(cfg),
    ensures
        intervals_in_range(apply_line(cfg, raw)),
{
}

proof fn lemma_apply_lines_in_range(cfg: Config, s: Seq<char>)
    requires
        intervals_in_range(cfg),
    ensures
        intervals_in_range(apply_lines(cfg, s)),
    decreases s.len(),
{
    if s.len() > 0 {
        let e = find(s, '\n');
        lemma_find_bounds(s, '\n');
        lemma_apply_line_in_range(cfg, s.take(e));
        if e < s.len() {
            lemma_apply_lines_in_range(apply_line(cfg, s.take(e)), s.skip(e + 1));
        }
    }
}

/// `find` gives an index within the text, at a `c` unless it is the end.
pub proof fn lemma_find_bounds(s: Seq<char>, c: char)
    ensures
        0 <= find(s, c) <= s.len(),
        find(s, c) < s.len() ==> s[find(s, c)] == c,
    decreases s.len(),
{
    if s.len() > 0 && s[0] != c {
        lemma_find_bounds(s.drop_first(), c);
    }
}

/// Whatever a configuration file holds, the settings read from it keep
/// both intervals in their ranges: a refresh interval of 5 to 600 seconds
/// and a heartbeat interval of 30 to 3600 seconds.
pub proof fn lemma_config_from_text_in_range(s: Seq<char>)
    ensures
        intervals_in_range(config_from_text(s)),
{
    lemma_apply_lines_in_range(default_config(), s);
}

/// A line part that trimming leaves as it is and that holds no line end.
pub open spec fn plain(s: Seq<char>) -> bool {
    &&& s.len() > 0
    &&& !is_ws(s[0])
    &&& !is_ws(s.last())
    &&& !s.contains('\n')
}

/// A key that a saved file writes: plain, without `=`, not a comment.
pub open spec fn key_ok(k: Seq<char>) -> bool {
    &&& plain(k)
    &&& !k.contains('=')
    &&& k[0] != '#'
    &&& k[0] != ';'
}

/// The first `c` in `a`, `c`, `b` (no `c` in `a`) is the one after `a`.
pub proof fn lemma_find_concat(a: Seq<char>, c: char, b: Seq<char>)
    requires
        !a.contains(c),
    ensures
        find(a + seq![c] + b, c) == a.len(),
    decreases a.len(),
{
    let s = a + seq![c] + b;
    if a.len() > 0 {
        assert(a[0] != c) by {
            if a[0] == c {
                assert(a[0] == c);
                assert(a.contains(c));
            }
        }
        assert(!a.drop_first().contains(c)) by {
            if a.drop_first().contains(c) {
                let i = choose|i: int| 0 <= i < a.drop_first().len() && a.drop_first()[i] == c;
                assert(a[i + 1] == c);
            }
        }
        lemma_find_concat(a.drop_first(), c, b);
        assert(s.drop_first() =~= a.drop_first() + seq![c] + b);
    }
}

proof fn lemma_apply_lines_cons(cfg: Config, line: Seq<char>, rest: Seq<char>)
    requires
        !line.contains('\n'),
    ensures
        apply_lines(cfg, line + seq!['\n'] + rest) == apply_lines(apply_line(cfg, line), rest),
{
    let s = line + seq!['\n'] + rest;
    lemma_find_concat(line, '\n', rest);
    assert(s.take(line.len() as int) =~= line);
    assert(s.skip(line.len() as int + 1) =~= rest);
}

proof fn lemma_trim_plain(s: Seq<char>)
    requires
        s.len() > 0,
        !is_ws(s[0]),
        !is_ws(s.last()),
    ensures
        trim(s) == s,
{
}

proof fn lemma_trim_end_keeps_first(s: Seq<char>)
    requires
        s.len() > 0,
        !is_ws(s[0]),
    ensures
        trim_end(s).len() > 0,
        trim_end(s)[0] == s[0],
    decreases s.len(),
{
    if is_ws(s.last()) {
        assert(s.len() > 1);
        lemma_trim_end_keeps_first(s.drop_last());
    }
}

/// The character of a digit below ten is a digit of that value.
pub proof fn lemma_digit_char(d: nat)
    requires
        d < 10,
    ensures
        is_digit(digit_char(d)),
        crate::text::digit_value(digit_char(d)) == d,
{
}

/// The decimal text of a number is a nonempty run of digits that reads back
/// as the number.
pub proof fn lemma_dec(n: nat)
    ensures
        dec(n).len() > 0,
        all_digits(dec(n)),
        digits_value(dec(n)) == n,
    decreases n,
{
    if n < 10 {
        lemma_digit_char(n);
        assert(dec(n).drop_last() =~= Seq::<char>::empty());
        assert(digits_value(Seq::<char>::empty()) == 0);
        assert(digits_value(dec(n)) == crate::text::digit_value(digit_char(n)));
    } else {
        lemma_dec(n / 10);
        lemma_digit_char(n % 10);
        let d = dec(n);
        assert(d.drop_last() =~= dec(n / 10));
        assert(n == (n / 10) * 10 + n % 10) by (nonlinear_arith);
        assert(d.last() == digit_char(n % 10));
        assert(digits_value(d) == digits_value(d.drop_last()) * 10 + crate::text::digit_value(
            d.last(),
        ));
        assert(digits_value(d) == n);
        assert forall|i: int| 0 <= i < d.len() implies is_digit(#[trigger] d[i]) by {
            if i < d.len() - 1 {
                assert(d[i] == dec(n / 10)[i]);
            }
        }
    }
}

/// A nonempty run of digits is plain and has no sign.
pub proof fn lemma_digits_plain(s: Seq<char>)
    requires
        s.len() > 0,
        all_digits(s),
    ensures
        plain(s),
        s[0] != '+',
{
    assert(is_digit(s[0]));
    assert(is_digit(s[s.len() - 1]));
    assert(!s.contains('\n')) by {
        if s.contains('\n') {
            let i = choose|i: int| 0 <= i < s.len() && s[i] == '\n';
            assert(is_digit(s[i]));
        }
    }
}

/// Reading back the decimal text of a number gives the number.
pub proof fn lemma_parse_dec(n: u64)
    ensures
        parse_u64_spec(dec(n as nat)) == Some(n),
        plain(dec(n as nat)),
{
    lemma_dec(n as nat);
    lemma_digits_plain(dec(n as nat));
    assert(unsigned_digits(dec(n as nat)) == dec(n as nat));
}

proof fn lemma_apply_entry_line(cfg: Config, k: Seq<char>, v: Seq<char>)
    requires
        key_ok(k),
        plain(v),
    ensures
        apply_line(cfg, k + seq!['='] + v) == apply_entry(cfg, k, v),
{
    let line = k + seq!['='] + v;
    assert(line[0] == k[0]);
    assert(line.last() == v.last());
    lemma_trim_plain(line);
    lemma_find_concat(k, '=', v);
    assert(line.take(k.len() as int) =~= k);
    assert(line.skip(k.len() as int + 1) =~= v);
    lemma_trim_plain(k);
    lemma_trim_plain(v);
}

proof fn lemma_entry_no_newline(k: Seq<char>, v: Seq<char>)
    requires
        !k.contains('\n'),
        !v.contains('\n'),
    ensures
        !(k + seq!['='] + v).contains('\n'),
{
    let line = k + seq!['='] + v;
    if line.contains('\n') {
        let i = choose|i: int| 0 <= i < line.len() && line[i] == '\n';
        if i < k.len() {
            assert(k[i] == '\n');
        } else if i > k.len() {
            assert(v[i - k.len() - 1] == '\n');
        }
    }
}

proof fn lemma_step(c: Config, k: Seq<char>, v: Seq<char>, rest: Seq<char>)
    requires
        key_ok(k),
        plain(v),
    ensures
        apply_lines(c, (k + seq!['='] + v) + seq!['\n'] + rest) == apply_lines(
            apply_entry(c, k, v),
            rest,
        ),
{
    lemma_entry_no_newline(k, v);
    lemma_apply_lines_cons(c, k + seq!['='] + v, rest);
    lemma_apply_entry_line(c, k, v);
}

proof fn lemma_bit(b: bool)
    ensures
        plain(bit(b)),
        (bit(b) == "1"@) == b,
{
    reveal_strlit("1");
    reveal_strlit("0");
    assert("0"@[0] != "1"@[0]);
}

proof fn lemma_key_enabled(c: Config, b: bool)
    ensures
        key_ok("enabled"@),
        apply_entry(c, "enabled"@, bit(b)) == (Config { enabled: b, ..c }),
{
    reveal_strlit("enabled");
    lemma_bit(b);
}

proof fn lemma_key_display(c: Config, b: bool)
    ensures
        key_ok("display"@),
        apply_entry(c, "display"@, bit(b)) == (Config { display: b, ..c }),
{
    reveal_strlit("enabled");
    reveal_strlit("display");
    assert("display"@[0] != "enabled"@[0]);
    lemma_bit(b);
}

proof fn lemma_key_away(c: Config, b: bool)
    ensures
        key_ok("away"@),
        apply_entry(c, "away"@, bit(b)) == (Config { away: b, ..c }),
{
    reveal_strlit("enabled");
    reveal_strlit("display");
    reveal_strlit("away");
    assert("away"@.len() != "enabled"@.len());
    assert("away"@.len() != "display"@.len());
    lemma_bit(b);
}

proof fn lemma_key_jiggle(c: Config, b: bool)
    ensures
        key_ok("jiggle"@),
        apply_entry(c, "jiggle"@, bit(b)) == (Config { jiggle: b, ..c }),
{
    reveal_strlit("enabled");
    reveal_strlit("display");
    reveal_strlit("away");
    reveal_strlit("jiggle");
    assert("jiggle"@[0] != "enabled"@[0]);
    assert("jiggle"@[0] != "display"@[0]);
    lemma_bit(b);
}

proof fn lemma_key_interval(c: Config, n: u64)
    ensures
        key_ok("interval"@),
        plain(dec(n as nat)),
        apply_entry(c, "interval"@, dec(n as nat)) == (Config {
            interval: clamp(n, MIN_INTERVAL, MAX_INTERVAL),
            ..c
        }),
{
    reveal_strlit("enabled");
    reveal_strlit("display");
    reveal_strlit("away");
    reveal_strlit("jiggle");
    reveal_strlit("interval");
    assert("interval"@[0] != "enabled"@[0]);
    assert("interval"@[0] != "display"@[0]);
    assert("interval"@[0] != "jiggle"@[0]);
    lemma_parse_dec(n);
}

proof fn lemma_key_jiggle_interval(c: Config, n: u64)
    ensures
        key_ok("jiggle_interval"@),
        plain(dec(n as nat)),
        apply_entry(c, "jiggle_interval"@, dec(n as nat)) == (Config {
            jiggle_interval: clamp(n, MIN_JIGGLE_INTERVAL, MAX_JIGGLE_INTERVAL),
            ..c
        }),
{
    reveal_strlit("enabled");
    reveal_strlit("display");
    reveal_strlit("away");
    reveal_strlit("jiggle");
    reveal_strlit("interval");
    reveal_strlit("jiggle_interval");
    lemma_parse_dec(n);
}

proof fn lemma_key_lang(c: Config, l: Lang)
    ensures
        key_ok("lang"@),
        plain(lang_code(l)),
        apply_entry(c, "lang"@, lang_code(l)) == (Config { lang: l, ..c }),
{
    reveal_strlit("enabled");
    reveal_strlit("display");
    reveal_strlit("away");
    reveal_strlit("jiggle");
    reveal_strlit("interval");
    reveal_strlit("jiggle_interval");
    reveal_strlit("lang");
    reveal_strlit("cn");
    reveal_strlit("en");
    assert("lang"@[0] != "away"@[0]);
    assert("lang"@[0] != "enabled"@[0]);
    lemma_trim_plain(lang_code(l));
}

proof fn lemma_find_absent(s: Seq<char>, c: char)
    requires
        !s.contains(c),
    ensures
        find(s, c) == s.len(),
    decreases s.len(),
{
    if s.len() > 0 {
        assert(s[0] != c) by {
            if s[0] == c {
                assert(s.contains(c));
            }
        }
        assert(!s.drop_first().contains(c)) by {
            if s.drop_first().contains(c) {
                let i = choose|i: int| 0 <= i < s.drop_first().len() && s.drop_first()[i] == c;
                assert(s[i + 1] == c);
            }
        }
        lemma_find_absent(s.drop_first(), c);
    }
}

/// A file of one entry line, without line end, holds that entry over the
/// defaults.
proof fn lemma_single_line(k: Seq<char>, v: Seq<char>)
    requires
        key_ok(k),
        plain(v),
    ensures
        config_from_text(k + seq!['='] + v) == apply_entry(default_config(), k, v),
{
    let line = k + seq!['='] + v;
    lemma_entry_no_newline(k, v);
    lemma_find_absent(line, '\n');
    assert(line.take(line.len() as int) =~= line);
    lemma_apply_entry_line(default_config(), k, v);
}

proof fn lemma_entry_enabled(c: Config, v: Seq<char>)
    ensures
        key_ok("enabled"@),
        apply_entry(c, "enabled"@, v) == (Config { enabled: v == "1"@, ..c }),
{
    reveal_strlit("enabled");

}

proof fn lemma_entry_display(c: Config, v: Seq<char>)
    ensures
        key_ok("display"@),
        apply_entry(c, "display"@, v) == (Config { display: v == "1"@, ..c }),
{
    reveal_strlit("enabled");
    reveal_strlit("display");
    assert("display"@[0] != "enabled"@[0]);
}

proof fn lemma_entry_away(c: Config, v: Seq<char>)
    ensures
        key_ok("away"@),
        apply_entry(c, "away"@, v) == (Config { away: v == "1"@, ..c }),
{
    reveal_strlit("enabled");
    reveal_strlit("display");
    reveal_strlit("away");
    assert("away"@.len() != "enabled"@.len());
    assert("away"@.len() != "display"@.len());
}

proof fn lemma_entry_jiggle(c: Config, v: Seq<char>)
    ensures
        key_ok("jiggle"@),
        apply_entry(c, "jiggle"@, v) == (Config { jiggle: v == "1"@, ..c }),
{
    reveal_strlit("enabled");
    reveal_strlit("display");
    reveal_strlit("away");
    reveal_strlit("jiggle");
    assert("jiggle"@[0] != "enabled"@[0]);
    assert("jiggle"@[0] != "display"@[0]);
}

proof fn lemma_entry_interval(c: Config, v: Seq<char>)
    ensures
        key_ok("interval"@),
        apply_entry(c, "interval"@, v) == (match parse_u64_spec(v) {
            Some(n) => Config { interval: clamp(n, MIN_INTERVAL, MAX_INTERVAL), ..c },
            None => c,
        }),
{
    reveal_strlit("enabled");
    reveal_strlit("display");
    reveal_strlit("away");
    reveal_strlit("jiggle");
    reveal_strlit("interval");
    assert("interval"@[0] != "enabled"@[0]);
    assert("interval"@[0] != "display"@[0]);
    assert("interval"@[0] != "jiggle"@[0]);
}

proof fn lemma_entry_jiggle_interval(c: Config, v: Seq<char>)
    ensures
        key_ok("jiggle_interval"@),
        apply_entry(c, "jiggle_interval"@, v) == (match parse_u64_spec(v) {
            Some(n) => Config {
                jiggle_interval: clamp(n, MIN_JIGGLE_INTERVAL, MAX_JIGGLE_INTERVAL),
                ..c
            },
            None => c,
        }),
{
    reveal_strlit("enabled");
    reveal_strlit("display");
    reveal_strlit("away");
    reveal_strlit("jiggle");
    reveal_strlit("interval");
    reveal_strlit("jiggle_interval");

    assert("jiggle_interval"@.len() != "enabled"@.len());
    assert("jiggle_interval"@.len() != "display"@.len());
    assert("jiggle_interval"@.len() != "away"@.len());
    assert("jiggle_interval"@.len() != "jiggle"@.len());
    assert("jiggle_interval"@.len() != "interval"@.len());
}

proof fn lemma_entry_lang(c: Config, v: Seq<char>)
    ensures
        key_ok("lang"@),
        apply_entry(c, "lang"@, v) == (Config { lang: lang_of(v), ..c }),
{
    reveal_strlit("enabled");
    reveal_strlit("display");
    reveal_strlit("away");
    reveal_strlit("jiggle");
    reveal_strlit("interval");
    reveal_strlit("jiggle_interval");
    reveal_strlit("lang");
    assert("lang"@[0] != "away"@[0]);
    assert("lang"@[0] != "enabled"@[0]);
}

/// A file whose one line sets `enabled` turns keeping awake on exactly for the
/// value `1`, and leaves every other setting at its default.
pub proof fn lemma_file_sets_enabled(v: Seq<char>)
    requires
        plain(v),
    ensures
        config_from_text("enabled"@ + seq!['='] + v) == (Config { enabled: v == "1"@, ..default_config() }),
{
    lemma_entry_enabled(default_config(), v);
    lemma_single_line("enabled"@, v);
}

/// A file whose one line sets `display` turns keeping the display on on exactly for the
/// value `1`, and leaves every other setting at its default.
pub proof fn lemma_file_sets_display(v: Seq<char>)
    requires
        plain(v),
    ensures
        config_from_text("display"@ + seq!['='] + v) == (Config { display: v == "1"@, ..default_config() }),
{
    lemma_entry_display(default_config(), v);
    lemma_single_line("display"@, v);
}

/// A file whose one line sets `away` turns away mode on exactly for the
/// value `1`, and leaves every other setting at its default.
pub proof fn lemma_file_sets_away(v: Seq<char>)
    requires
        plain(v),
    ensures
        config_from_text("away"@ + seq!['='] + v) == (Config { away: v == "1"@, ..default_config() }),
{
    lemma_entry_away(default_config(), v);
    lemma_single_line("away"@, v);
}

/// A file whose one line sets `jiggle` turns the F15 presses on exactly for the
/// value `1`, and leaves every other setting at its default.
pub proof fn lemma_file_sets_jiggle(v: Seq<char>)
    requires
        plain(v),
    ensures
        config_from_text("jiggle"@ + seq!['='] + v) == (Config { jiggle: v == "1"@, ..default_config() }),
{
    lemma_entry_jiggle(default_config(), v);
    lemma_single_line("jiggle"@, v);
}

/// A file whose one line sets `interval` to a number sets the refresh
/// interval to it clamped into 5 to 600, and leaves every other setting at
/// its default; a value that is no number changes nothing.
pub proof fn lemma_file_sets_interval(v: Seq<char>)
    requires
        plain(v),
    ensures
        parse_u64_spec(v) matches Some(n) ==> config_from_text("interval"@ + seq!['='] + v) == (
        Config { interval: clamp(n, 5, 600), ..default_config() }),
        parse_u64_spec(v) is None ==> config_from_text("interval"@ + seq!['='] + v)
            == default_config(),
{
    lemma_entry_interval(default_config(), v);
    lemma_single_line("interval"@, v);
}

/// A file whose one line sets `jiggle_interval` to a number sets the
/// heartbeat interval to it clamped into 30 to 3600, and leaves every other
/// setting at its default; a value that is no number changes nothing.
pub proof fn lemma_file_sets_jiggle_interval(v: Seq<char>)
    requires
        plain(v),
    ensures
        parse_u64_spec(v) matches Some(n) ==> config_from_text("jiggle_interval"@ + seq!['='] + v)
            == (Config { jiggle_interval: clamp(n, 30, 3600), ..default_config() }),
        parse_u64_spec(v) is None ==> config_from_text("jiggle_interval"@ + seq!['='] + v)
            == default_config(),
{
    lemma_entry_jiggle_interval(default_config(), v);
    lemma_single_line("jiggle_interval"@, v);
}

/// A file whose one line sets `lang` sets the language that the value
/// names, and leaves every other setting at its default.
pub proof fn lemma_file_sets_lang(v: Seq<char>)
    requires
        plain(v),
    ensures
        config_from_text("lang"@ + seq!['='] + v) == (Config { lang: lang_of(v), ..default_config() }),
{
    lemma_entry_lang(default_config(), v);
    lemma_single_line("lang"@, v);
}

proof fn lemma_header()
    ensures
        !config_header().contains('\n'),
        apply_line(default_config(), config_header()) == default_config(),
{
    reveal_strlit("# no-sleep-agent-tray 配置（设置窗口修改后自动保存）");
    let h = config_header();
    lemma_trim_end_keeps_first(h);
    assert(!is_ws(h[0]));
    assert(trim_start(h) == h);
}

/// Saving and reading back: the settings that a saved file holds are the
/// saved settings, with both intervals clamped into their ranges (so the
/// settings themselves where they already lie in those ranges).
#[verifier::rlimit(50)]
pub proof fn lemma_config_round_trip(cfg: Config)
    ensures
        config_from_text(config_text_spec(cfg)) == clamped(cfg),
        intervals_in_range(cfg) ==> config_from_text(config_text_spec(cfg)) == cfg,
{
    let h = config_header();
    let v1 = bit(cfg.enabled);
    let v2 = bit(cfg.display);
    let v3 = bit(cfg.away);
    let v4 = bit(cfg.jiggle);
    let v5 = dec(cfg.interval as nat);
    let v6 = dec(cfg.jiggle_interval as nat);
    let v7 = lang_code(cfg.lang);
    let nl = seq!['\n'];
    let e: Seq<char> = Seq::empty();
    let r7 = ("lang"@ + seq!['='] + v7) + nl + e;
    let r6 = ("jiggle_interval"@ + seq!['='] + v6) + nl + r7;
    let r5 = ("interval"@ + seq!['='] + v5) + nl + r6;
    let r4 = ("jiggle"@ + seq!['='] + v4) + nl + r5;
    let r3 = ("away"@ + seq!['='] + v3) + nl + r4;
    let r2 = ("display"@ + seq!['='] + v2) + nl + r3;
    let r1 = ("enabled"@ + seq!['='] + v1) + nl + r2;
    let r0 = h + nl + r1;
    let c0 = default_config();
    let c1 = Config { enabled: cfg.enabled, ..c0 };
    let c2 = Config { display: cfg.display, ..c1 };
    let c3 = Config { away: cfg.away, ..c2 };
    let c4 = Config { jiggle: cfg.jiggle, ..c3 };
    let c5 = Config { interval: clamp(cfg.interval, MIN_INTERVAL, MAX_INTERVAL), ..c4 };
    let c6 = Config {
        jiggle_interval: clamp(cfg.jiggle_interval, MIN_JIGGLE_INTERVAL, MAX_JIGGLE_INTERVAL),
        ..c5
    };
    let c7 = Config { lang: cfg.lang, ..c6 };
    assert(config_from_text(config_text_spec(cfg)) == apply_lines(c0, r0)) by {
        assert(config_text_spec(cfg) =~= r0);
    }
    assert(apply_lines(c0, r0) == apply_lines(c0, r1)) by {
        lemma_header();
        lemma_apply_lines_cons(c0, h, r1);
    }
    assert(apply_lines(c0, r1) == apply_lines(c1, r2)) by {
        lemma_key_enabled(c0, cfg.enabled);
        lemma_bit(cfg.enabled);
        lemma_step(c0, "enabled"@, v1, r2);
    }
    assert(apply_lines(c1, r2) == apply_lines(c2, r3)) by {
        lemma_key_display(c1, cfg.display);
        lemma_bit(cfg.display);
        lemma_step(c1, "display"@, v2, r3);
    }
    assert(apply_lines(c2, r3) == apply_lines(c3, r4)) by {
        lemma_key_away(c2, cfg.away);
        lemma_bit(cfg.away);
        lemma_step(c2, "away"@, v3, r4);
    }
    assert(apply_lines(c3, r4) == apply_lines(c4, r5)) by {
        lemma_key_jiggle(c3, cfg.jiggle);
        lemma_bit(cfg.jiggle);
        lemma_step(c3, "jiggle"@, v4, r5);
    }
    assert(apply_lines(c4, r5) == apply_lines(c5, r6)) by {
        lemma_key_interval(c4, cfg.interval);
        lemma_step(c4, "interval"@, v5, r6);
    }
    assert(apply_lines(c5, r6) == apply_lines(c6, r7)) by {
        lemma_key_jiggle_interval(c5, cfg.jiggle_interval);
        lemma_step(c5, "jiggle_interval"@, v6, r7);
    }
    assert(apply_lines(c6, r7) == apply_lines(c7, e)) by {
        lemma_key_lang(c6, cfg.lang);
        lemma_step(c6, "lang"@, v7, e);
    }
    assert(c7 == clamped(cfg));
}

} // verus!
