//! What the settings window and the start-on-boot entry compute.

use vstd::prelude::*;
use vstd::string::*;

use crate::config::{
    Config, MAX_INTERVAL, MAX_JIGGLE_INTERVAL, MIN_INTERVAL, MIN_JIGGLE_INTERVAL,
};
use crate::lang::Lang;
use crate::text::{chars_of, parse_u64_range, parse_u64_spec, trim, trim_range};

verus! {

/// Which field of the settings window holds no valid value.
#[derive(Clone, Copy, Debug, PartialEq, Eq, Structural)]
pub enum InputError {
    /// The refresh interval is no number from 5 to 600.
    Interval,
    /// The heartbeat interval is no number from 30 to 3600.
    Heartbeat,
}

/// The checkboxes and fields of the settings window.
pub struct SettingsForm {
    pub enabled: bool,
    pub display: bool,
    pub away: bool,
    pub jiggle: bool,
    /// The refresh interval field, as typed.
    pub interval_text: String,
    /// The heartbeat interval field, as typed.
    pub jiggle_text: String,
}

/// A field's number where it lies in `lo..=hi`.
pub open spec fn field_value(text: Seq<char>, lo: u64, hi: u64) -> Option<u64> {
    match parse_u64_spec(trim(text)) {
        Some(n) => if lo <= n <= hi {
            Some(n)
        } else {
            None
        },
        None => None,
    }
}

/// The settings that Apply puts in force: the refresh interval checked
/// first, then the heartbeat interval; the language stays as it is.
pub open spec fn form_config_spec(
    enabled: bool,
    display: bool,
    away: bool,
    jiggle: bool,
    interval_text: Seq<char>,
    jiggle_text: Seq<char>,
    lang: Lang,
) -> Result<Config, InputError> {
    match field_value(interval_text, MIN_INTERVAL, MAX_INTERVAL) {
        None => Err(InputError::Interval),
        Some(interval) => match field_value(jiggle_text, MIN_JIGGLE_INTERVAL, MAX_JIGGLE_INTERVAL) {
            None => Err(InputError::Heartbeat),
            Some(jiggle_interval) => Ok(
                Config { enabled, display, away, jiggle, interval, jiggle_interval, lang },
            ),
        },
    }
}

/// Apply keeps each checkbox in its own field and the language as given;
/// it succeeds exactly when both fields, trimmed, are numbers in their
/// ranges, and then the intervals are those numbers.
pub proof fn lemma_form_fields(
    enabled: bool,
    display: bool,
    away: bool,
    jiggle: bool,
    interval_text: Seq<char>,
    jiggle_text: Seq<char>,
    lang: Lang,
)
    ensures
        ({
            let r = form_config_spec(enabled, display, away, jiggle, interval_text, jiggle_text, lang);
            &&& r is Ok <==> (field_value(interval_text, 5, 600) is Some && field_value(jiggle_text, 30, 3600) is Some)
            &&& r matches Ok(c) ==> c.enabled == enabled && c.display == display && c.away == away
                && c.jiggle == jiggle && c.lang == lang
            &&& r matches Ok(c) ==> parse_u64_spec(trim(interval_text)) == Some(c.interval) && 5
                <= c.interval <= 600
            &&& r matches Ok(c) ==> parse_u64_spec(trim(jiggle_text)) == Some(c.jiggle_interval) && 30
                <= c.jiggle_interval <= 3600
            &&& (r == Err::<Config, InputError>(InputError::Interval)) <==> field_value(interval_text, 5, 600) is None
        }),
{
}

fn field_number(text: &str, lo: u64, hi: u64) -> (r: Option<u64>)
    ensures
        r == field_value(text@, lo, hi),
{
    let v = chars_of(text);
    assert(v@.subrange(0, v@.len() as int) =~= v@);
    let (a, b) = trim_range(&v, 0, v.len());
    match parse_u64_range(&v, a, b) {
        Some(n) => if lo <= n && n <= hi {
            Some(n)
        } else {
            None
        },
        None => None,
    }
}

impl SettingsForm {
    /// The settings that Apply puts in force, or the field to correct.
    pub fn to_config(&self, lang: Lang) -> (r: Result<Config, InputError>)
        ensures
            r == form_config_spec(
                self.enabled,
                self.display,
                self.away,
                self.jiggle,
                self.interval_text@,
                self.jiggle_text@,
                lang,
            ),
    {
        let interval = match field_number(self.interval_text.as_str(), MIN_INTERVAL, MAX_INTERVAL) {
            Some(n) => n,
            None => {
                return Err(InputError::Interval);
            },
        };
        let jiggle_interval = match field_number(
            self.jiggle_text.as_str(),
            MIN_JIGGLE_INTERVAL,
            MAX_JIGGLE_INTERVAL,
        ) {
            Some(n) => n,
            None => {
                return Err(InputError::Heartbeat);
            },
        };
        Ok(
            Config {
                enabled: self.enabled,
                display: self.display,
                away: self.away,
                jiggle: self.jiggle,
                interval,
                jiggle_interval,
                lang,
            },
        )
    }
}

/// The registry value under which the tool starts on boot.
pub const AUTOSTART_NAME: &'static str = "KeepAwake";

/// The command line that starts the program at `exe` on boot: the path in
/// double quotes.
pub fn autostart_command(exe: &str) -> (r: String)
    ensures
        r@ == seq!['"'] + exe@ + seq!['"'],
{
    let mut s = String::new();
    s.append("\"");
    s.append(exe);
    s.append("\"");
    proof {
        reveal_strlit("\"");
    }
    assert(s@ =~= seq!['"'] + exe@ + seq!['"']);
    s
}

} // verus!
