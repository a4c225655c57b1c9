use vstd::prelude::*;
use vstd::string::StrSliceExecFns;

use crate::action::KeyAction;

verus! {

/// Virtual key code of the left Ctrl key.
pub const VK_LCONTROL: u32 = 0xA2;

/// Virtual key code of the right Ctrl key.
pub const VK_RCONTROL: u32 = 0xA3;

/// The two keys whose isolated taps switch the input method.
#[derive(Clone, Copy, Debug, PartialEq, Eq, Structural)]
pub struct KeyConfig {
    /// Key whose tap switches the input method off.
    pub ime_off: u32,
    /// Key whose tap switches the input method on.
    pub ime_on: u32,
}

impl Default for KeyConfig {
    /// Left Ctrl switches off, right Ctrl switches on.
    fn default() -> (r: KeyConfig)
        ensures
            r.ime_off == VK_LCONTROL,
            r.ime_on == VK_RCONTROL,
    {
        KeyConfig { ime_off: VK_LCONTROL, ime_on: VK_RCONTROL }
    }
}

impl KeyConfig {
    /// The key whose tap asks for `action`.
    pub open spec fn key_of(self, action: KeyAction) -> u32 {
        match action {
            KeyAction::ImeOff => self.ime_off,
            KeyAction::ImeOn => self.ime_on,
        }
    }

    /// The key whose physical state gates the injection of `action`.
    pub fn key_for(&self, action: KeyAction) -> (r: u32)
        ensures
            r == self.key_of(action),
    {
        match action {
            KeyAction::ImeOff => self.ime_off,
            KeyAction::ImeOn => self.ime_on,
        }
    }
}

/// How much the program logs.
#[derive(Clone, Copy, Debug, PartialEq, Eq, Structural)]
pub enum LogLevel {
    Error,
    Warn,
    Info,
    Debug,
    Trace,
}

/// The program's settings.
#[derive(Clone, Debug)]
pub struct Config {
    /// Name of the log level, in any case.
    pub log_level: String,
    /// The keys that switch the input method.
    pub keys: KeyConfig,
}

impl Default for Config {
    /// Logs warnings, with the default keys.
    fn default() -> (r: Config)
        ensures
            r.log_level@ == "warn"@,
            r.keys.ime_off == VK_LCONTROL,
            r.keys.ime_on == VK_RCONTROL,
    {
        Config { log_level: "warn".to_string(), keys: KeyConfig::default() }
    }
}

/// The level that a lower-case name stands for; an unknown name means
/// `Warn`.
pub open spec fn level_of(name: Seq<char>) -> LogLevel {
    if name == "error"@ {
        LogLevel::Error
    } else if name == "warn"@ {
        LogLevel::Warn
    } else if name == "info"@ {
        LogLevel::Info
    } else if name == "debug"@ {
        LogLevel::Debug
    } else if name == "trace"@ {
        LogLevel::Trace
    } else {
        LogLevel::Warn
    }
}

/// What `str::to_lowercase` makes of a string.
pub uninterp spec fn lower_of(s: Seq<char>) -> Seq<char>;

/// Relies on str::to_lowercase: the result depends on the characters alone.
#[verifier::external_body]
fn lowercase(s: &str) -> (r: String)
    ensures
        r@ == lower_of(s@),
{
    s.to_lowercase()
}

/// Whether two strings hold the same characters.
pub fn str_eq(a: &str, b: &str) -> (r: bool)
    ensures
        r == (a@ == b@),
{
    let n: usize = a.unicode_len();
    if n != b.unicode_len() {
        return false;
    }
    let mut i: usize = 0;
    while i < n
        invariant
            n == a@.len(),
            n == b@.len(),
            i <= n,
            forall|j: int| 0 <= j < i ==> a@[j] == b@[j],
        decreases n - i,
    {
        if a.get_char(i) != b.get_char(i) {
            return false;
        }
        i = i + 1;
    }
    assert(a@ =~= b@);
    true
}

/// The level that a lower-case name stands for; an unknown name means
/// `Warn`.
pub fn log_level_from_name(name: &str) -> (r: LogLevel)
    ensures
        r == level_of(name@),
{
    if str_eq(name, "error") {
        LogLevel::Error
    } else if str_eq(name, "warn") {
        LogLevel::Warn
    } else if str_eq(name, "info") {
        LogLevel::Info
    } else if str_eq(name, "debug") {
        LogLevel::Debug
    } else if str_eq(name, "trace") {
        LogLevel::Trace
    } else {
        LogLevel::Warn
    }
}

impl Config {
    /// The configured level, read without regard to case.
    pub fn log_level_filter(&self) -> (r: LogLevel)
        ensures
            r == level_of(lower_of(self.log_level@)),
    {
        let lower = lowercase(self.log_level.as_str());
        log_level_from_name(lower.as_str())
    }
}

} // verus!
