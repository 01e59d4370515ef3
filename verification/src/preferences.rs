//! The colour-scheme preference and its textual forms.

use crate::text::same_text;
use vstd::prelude::*;
use vstd::string::*;

verus! {

/// The appearance a user may ask for, or the desktop may report.
#[derive(Copy, Clone, PartialEq, Eq, Debug, Structural)]
pub enum PreferenceValue {
    /// No preference.
    Default,
    /// A light appearance.
    Light,
    /// A dark appearance.
    Dark,
}

/// What `text` means on the command line: the preference that it names, if it
/// names one.
pub open spec fn parsed(text: Seq<char>) -> Option<PreferenceValue> {
    if text == "default"@ {
        Some(PreferenceValue::Default)
    } else if text == "light"@ {
        Some(PreferenceValue::Light)
    } else if text == "dark"@ {
        Some(PreferenceValue::Dark)
    } else {
        None
    }
}

/// The message that rejects `text` as the name of a preference.
pub open spec fn rejection(text: Seq<char>) -> Seq<char> {
    "Unknown log level: "@ + text
}

/// The preference that the settings service means by `code`: 1 is dark, 2 is
/// light, and every other code is no preference.
pub open spec fn decoded(code: u32) -> PreferenceValue {
    if code == 1 {
        PreferenceValue::Dark
    } else if code == 2 {
        PreferenceValue::Light
    } else {
        PreferenceValue::Default
    }
}

impl PreferenceValue {
    /// The name of the preference, as it is typed and printed.
    pub open spec fn name(self) -> Seq<char> {
        match self {
            PreferenceValue::Default => "default"@,
            PreferenceValue::Light => "light"@,
            PreferenceValue::Dark => "dark"@,
        }
    }

    /// The value that the desktop's settings store accepts for the preference.
    pub open spec fn spec_gsettings_value(self) -> Seq<char> {
        match self {
            PreferenceValue::Default => "default"@,
            PreferenceValue::Light => "prefer-light"@,
            PreferenceValue::Dark => "prefer-dark"@,
        }
    }

    /// The name with a double quote before and after it: the line that
    /// reports the preference.
    pub open spec fn spec_quoted(self) -> Seq<char> {
        seq!['"'] + self.name() + seq!['"']
    }

    /// Gives the name of the preference.
    pub fn as_str(&self) -> (name: &'static str)
        ensures
            name@ == self.name(),
    {
        match self {
            PreferenceValue::Default => "default",
            PreferenceValue::Light => "light",
            PreferenceValue::Dark => "dark",
        }
    }

    /// Gives the name of the preference as an owned string.
    pub fn to_string(&self) -> (name: String)
        ensures
            name@ == self.name(),
    {
        self.as_str().to_owned()
    }

    /// Gives the line that reports the preference: its name in double quotes.
    pub fn quoted(&self) -> (line: String)
        ensures
            line@ == self.spec_quoted(),
    {
        let line = "\"".to_owned().concat(self.as_str()).concat("\"");
        proof {
            reveal_strlit("\"");
            assert("\""@ =~= seq!['"']);
        }
        line
    }

    /// Gives the value that the desktop's settings store accepts for the
    /// preference.
    pub fn gsettings_value(&self) -> (value: &'static str)
        ensures
            value@ == self.spec_gsettings_value(),
    {
        match self {
            PreferenceValue::Default => "default",
            PreferenceValue::Light => "prefer-light",
            PreferenceValue::Dark => "prefer-dark",
        }
    }

    /// Gives the preference that the settings service means by `code`.
    pub fn from_code(code: u32) -> (preference: PreferenceValue)
        ensures
            preference == decoded(code),
    {
        if code == 1 {
            PreferenceValue::Dark
        } else if code == 2 {
            PreferenceValue::Light
        } else {
            PreferenceValue::Default
        }
    }

    /// Gives the names that the command line accepts, in the order in which
    /// its help lists them.
    pub fn possible_values() -> (names: [&'static str; 3])
        ensures
            names@.len() == 3,
            names@[0]@ == PreferenceValue::Default.name(),
            names@[1]@ == PreferenceValue::Light.name(),
            names@[2]@ == PreferenceValue::Dark.name(),
    {
        ["default", "light", "dark"]
    }
}

impl std::str::FromStr for PreferenceValue {
    type Err = String;

    /// Reads a preference from its name. Any other text is rejected, with a
    /// message that quotes it.
    fn from_str(s: &str) -> (outcome: Result<Self, String>)
        ensures
            match outcome {
                Ok(preference) => parsed(s@) == Some(preference),
                Err(message) => parsed(s@) is None && message@ == rejection(s@),
            },
    {
        if same_text(s, "default") {
            Ok(PreferenceValue::Default)
        } else if same_text(s, "light") {
            Ok(PreferenceValue::Light)
        } else if same_text(s, "dark") {
            Ok(PreferenceValue::Dark)
        } else {
            Err("Unknown log level: ".to_owned().concat(s))
        }
    }
}

/// A preference is read back from its own name, so no two preferences share
/// a name.
pub proof fn lemma_name_round_trip(preference: PreferenceValue)
    ensures
        parsed(preference.name()) == Some(preference),
{
    reveal_strlit("default");
    reveal_strlit("light");
    reveal_strlit("dark");
    assert("default"@.len() == 7);
    assert("light"@.len() == 5);
    assert("dark"@.len() == 4);
}

/// A text is accepted exactly when it is the name of a preference, and it is
/// then read as that preference.
pub proof fn lemma_parsed_iff_name(text: Seq<char>, preference: PreferenceValue)
    ensures
        parsed(text) == Some(preference) <==> text == preference.name(),
{
    lemma_name_round_trip(preference);
}

/// The settings store is given a different value for each preference.
pub proof fn lemma_gsettings_values_differ(a: PreferenceValue, b: PreferenceValue)
    requires
        a != b,
    ensures
        a.spec_gsettings_value() != b.spec_gsettings_value(),
{
    reveal_strlit("default");
    reveal_strlit("prefer-light");
    reveal_strlit("prefer-dark");
    assert("default"@.len() == 7);
    assert("prefer-light"@.len() == 12);
    assert("prefer-dark"@.len() == 11);
}

} // verus!
