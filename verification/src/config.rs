//! The application configuration: a single profiling flag read from a
//! textual environment value, with a documented default and the grammar of
//! accepted boolean encodings.

use vstd::prelude::*;

verus! {

/// Two characters match case-insensitively against a lowercase keyword
/// character: they are equal, or the keyword character is a lowercase ASCII
/// letter and the other is its uppercase form.
pub open spec fn char_eq_ci(a: char, b: char) -> bool {
    a == b || (97 <= b as int <= 122 && a as int + 32 == b as int)
}

/// A string matches a lowercase keyword case-insensitively: same length,
/// and each character matches the keyword's character at its position.
pub open spec fn matches_ci(s: Seq<char>, keyword: Seq<char>) -> bool {
    s.len() == keyword.len() && (forall|i: int|
        0 <= i < s.len() ==> char_eq_ci(s[i], keyword[i]))
}

/// The truthy boolean encodings: "1", "true", "on" and "yes", in any case.
pub open spec fn spec_truthy(s: Seq<char>) -> bool {
    ||| matches_ci(s, "1"@)
    ||| matches_ci(s, "true"@)
    ||| matches_ci(s, "on"@)
    ||| matches_ci(s, "yes"@)
}

/// The falsy boolean encodings: "0", "false", "off" and "no", in any case.
pub open spec fn spec_falsy(s: Seq<char>) -> bool {
    ||| matches_ci(s, "0"@)
    ||| matches_ci(s, "false"@)
    ||| matches_ci(s, "off"@)
    ||| matches_ci(s, "no"@)
}

/// What a textual boolean parses to: `Some(true)` on a truthy encoding,
/// `Some(false)` on a falsy one, `None` on anything else.
pub open spec fn spec_parse_bool(s: Seq<char>) -> Option<bool> {
    if spec_truthy(s) {
        Some(true)
    } else if spec_falsy(s) {
        Some(false)
    } else {
        None
    }
}

/// Compares a string case-insensitively against a lowercase keyword.
fn str_eq_ci(s: &str, keyword: &str) -> (r: bool)
    ensures
        r == matches_ci(s@, keyword@),
{
    let n = s.unicode_len();
    if n != keyword.unicode_len() {
        return false;
    }
    let mut i: usize = 0;
    while i < n
        invariant
            n == s@.len(),
            n == keyword@.len(),
            i <= n,
            forall|j: int| 0 <= j < i ==> char_eq_ci(s@[j], keyword@[j]),
        decreases n - i,
    {
        let a = s.get_char(i);
        let b = keyword.get_char(i);
        let au = a as u32;
        let bu = b as u32;
        if !(a == b || (97 <= bu && bu <= 122 && au == bu - 32)) {
            return false;
        }
        i += 1;
    }
    true
}

/// Parses a textual boolean: truthy and falsy encodings in any case.
pub fn parse_bool_value(s: &str) -> (r: Option<bool>)
    ensures
        r == spec_parse_bool(s@),
{
    if str_eq_ci(s, "1") || str_eq_ci(s, "true") || str_eq_ci(s, "on") || str_eq_ci(s, "yes") {
        Some(true)
    } else if str_eq_ci(s, "0") || str_eq_ci(s, "false") || str_eq_ci(s, "off") || str_eq_ci(
        s,
        "no",
    ) {
        Some(false)
    } else {
        None
    }
}

/// The failure of configuration construction: a recognized value was
/// present but is not a boolean encoding. It carries the offending text.
#[derive(Debug)]
pub enum ConfigError {
    InvalidBool(String),
}

impl ConfigError {
    /// A description of the error, naming the offending text.
    pub fn describe(&self) -> (r: String)
        ensures
            match *self {
                ConfigError::InvalidBool(v) => r@ == "invalid boolean value: "@ + v@,
            },
    {
        match self {
            ConfigError::InvalidBool(v) => {
                let mut s = String::from_str("invalid boolean value: ");
                s.append(v.as_str());
                s
            },
        }
    }
}

/// The application configuration: whether profiling is enabled.
#[derive(Clone, Copy, Debug, PartialEq, Eq, Structural)]
pub struct AppConfig {
    pub profiling: bool,
}

impl Default for AppConfig {
    /// The default configuration: profiling disabled.
    fn default() -> (r: Self)
        ensures
            r.profiling == false,
    {
        AppConfig { profiling: false }
    }
}

impl AppConfig {
    /// Creates the application config from the profiling environment value,
    /// `None` standing for an unset variable: unset defaults the flag to
    /// false, a boolean encoding sets it, and any other text is a
    /// configuration error rather than a silent default.
    pub fn build(profiling_var: Option<&str>) -> (r: Result<Self, ConfigError>)
        ensures
            match profiling_var {
                None => r == Ok::<AppConfig, ConfigError>(AppConfig { profiling: false }),
                Some(s) => match spec_parse_bool(s@) {
                    Some(b) => r == Ok::<AppConfig, ConfigError>(AppConfig { profiling: b }),
                    None => r matches Err(e) && e matches ConfigError::InvalidBool(v) && v@ == s@,
                },
            },
    {
        match profiling_var {
            None => Ok(AppConfig { profiling: false }),
            Some(s) => match parse_bool_value(s) {
                Some(b) => Ok(AppConfig { profiling: b }),
                None => Err(ConfigError::InvalidBool(s.to_owned())),
            },
        }
    }

    /// Gets a value indicating whether profiling should be enabled or not.
    pub fn profiling_enabled(&self) -> (r: bool)
        ensures
            r == self.profiling,
    {
        self.profiling
    }

    /// Sets the flag to enable/disable profiling.
    pub fn enable_profiling(&mut self, val: bool)
        ensures
            final(self).profiling == val,
    {
        self.profiling = val;
    }
}

/// Building from any truthy encoding yields a configuration whose profiling
/// flag reads true; from any falsy encoding, false.
pub proof fn lemma_parse_bool_of_encodings(s: Seq<char>)
    ensures
        spec_truthy(s) ==> spec_parse_bool(s) == Some(true),
        spec_falsy(s) ==> spec_parse_bool(s) == Some(false),
{
    reveal_strlit("1");
    reveal_strlit("true");
    reveal_strlit("on");
    reveal_strlit("yes");
    reveal_strlit("0");
    reveal_strlit("false");
    reveal_strlit("off");
    reveal_strlit("no");
    if spec_truthy(s) && spec_falsy(s) {
        if matches_ci(s, "1"@) {
            assert(char_eq_ci(s[0], "1"@[0]));
            assert(char_eq_ci(s[0], "0"@[0]));
            assert(false);
        } else if matches_ci(s, "on"@) {
            assert(char_eq_ci(s[0], "on"@[0]));
            assert(char_eq_ci(s[0], "no"@[0]));
            assert(false);
        } else if matches_ci(s, "yes"@) {
            assert(char_eq_ci(s[0], "yes"@[0]));
            assert(char_eq_ci(s[0], "off"@[0]));
            assert(false);
        } else {
            assert(matches_ci(s, "true"@));
            assert(s.len() == 4);
            assert(false);
        }
    }
}

} // verus!
