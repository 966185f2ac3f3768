//! Application settings: their defaults, how an update is merged into them,
//! how the API key is masked before it is shown, and what the probe of the
//! command-line assistant comes to.

use crate::text::{
    byte_len, byte_range, can_cut, concat2, has_part, has_prefix, str_byte_len, str_can_cut,
    str_contains, str_eq, str_head, str_starts_with, str_tail, str_trim, trimmed,
};
use vstd::prelude::*;
use vstd::string::StringExecFns;

verus! {

/// The settings of the application.
#[derive(Debug)]
pub struct AppSettings {
    pub anthropic_api_key: Option<String>,
    pub use_claude_code: bool,
    pub mock_mode: bool,
    pub default_model: String,
    pub theme: String,
}

/// The settings, as mathematical values.
pub struct SettingsModel {
    pub anthropic_api_key: Option<Seq<char>>,
    pub use_claude_code: bool,
    pub mock_mode: bool,
    pub default_model: Seq<char>,
    pub theme: Seq<char>,
}

impl View for AppSettings {
    type V = SettingsModel;

    open spec fn view(&self) -> SettingsModel {
        SettingsModel {
            anthropic_api_key: match self.anthropic_api_key {
                Some(key) => Some(key@),
                None => None,
            },
            use_claude_code: self.use_claude_code,
            mock_mode: self.mock_mode,
            default_model: self.default_model@,
            theme: self.theme@,
        }
    }
}

/// The model of an optional text.
pub open spec fn option_text(given: Option<String>) -> Option<Seq<char>> {
    match given {
        Some(text) => Some(text@),
        None => None,
    }
}

/// The theme that is used where stored settings name none.
pub fn default_theme() -> (name: String)
    ensures
        name@ == "dark"@,
{
    String::from_str("dark")
}

impl Default for AppSettings {
    fn default() -> (settings: Self)
        ensures
            settings@ == (SettingsModel {
                anthropic_api_key: None,
                use_claude_code: false,
                mock_mode: false,
                default_model: Seq::empty(),
                theme: Seq::empty(),
            }),
    {
        AppSettings {
            anthropic_api_key: None,
            use_claude_code: false,
            mock_mode: false,
            default_model: String::new(),
            theme: String::new(),
        }
    }
}

/// Whether a key is long enough to show its two ends.
pub open spec fn shows_ends(key: Seq<char>) -> bool {
    byte_len(key) > 8
}

/// Whether a key can be masked: a key that shows its ends must be such that
/// its first four and its last four bytes are whole characters.
pub open spec fn can_be_masked(key: Seq<char>) -> bool {
    shows_ends(key) ==> can_cut(key, 4) && can_cut(key, byte_len(key) - 4)
}

/// A key as it is shown: its first four and last four bytes around three
/// dots, or four stars for a key of eight bytes or fewer.
pub open spec fn masked_key(key: Seq<char>) -> Seq<char> {
    if shows_ends(key) {
        byte_range(key, 0, 4) + "..."@ + byte_range(key, byte_len(key) - 4, byte_len(key) as int)
    } else {
        "****"@
    }
}

/// Whether a text is a masked key rather than a key: it holds three dots
/// in a row, or is four stars.
pub open spec fn is_mask(key: Seq<char>) -> bool {
    has_part(key, "..."@) || key == "****"@
}

/// The key after an update: unchanged where none is given or a masked one,
/// removed where an empty one is given, and else the given one.
pub open spec fn updated_key(current: Option<Seq<char>>, given: Option<Seq<char>>) -> Option<
    Seq<char>,
> {
    match given {
        None => current,
        Some(key) => if is_mask(key) {
            current
        } else if key.len() == 0 {
            None
        } else {
            Some(key)
        },
    }
}

impl SettingsModel {
    /// The settings with the key masked.
    pub open spec fn masked(self) -> SettingsModel {
        SettingsModel {
            anthropic_api_key: match self.anthropic_api_key {
                Some(key) => Some(masked_key(key)),
                None => None,
            },
            ..self
        }
    }

    /// The settings after an update: each part that is given replaces the
    /// stored one, the key as [`updated_key`] says.
    pub open spec fn updated(
        self,
        anthropic_api_key: Option<Seq<char>>,
        use_claude_code: Option<bool>,
        mock_mode: Option<bool>,
        default_model: Option<Seq<char>>,
        theme: Option<Seq<char>>,
    ) -> SettingsModel {
        SettingsModel {
            anthropic_api_key: updated_key(self.anthropic_api_key, anthropic_api_key),
            use_claude_code: match use_claude_code {
                Some(flag) => flag,
                None => self.use_claude_code,
            },
            mock_mode: match mock_mode {
                Some(flag) => flag,
                None => self.mock_mode,
            },
            default_model: match default_model {
                Some(name) => name,
                None => self.default_model,
            },
            theme: match theme {
                Some(name) => name,
                None => self.theme,
            },
        }
    }

    /// Whether a key is stored, and not an empty one.
    pub open spec fn has_key(self) -> bool {
        self.anthropic_api_key matches Some(key) && key.len() > 0
    }
}

/// A key as it is shown.
pub fn mask_api_key(key: &str) -> (shown: String)
    requires
        can_be_masked(key@),
    ensures
        shown@ == masked_key(key@),
{
    let size = str_byte_len(key);
    if size > 8 {
        let mut shown = String::from_str(str_head(key, 4));
        shown.append("...");
        shown.append(str_tail(key, size - 4));
        shown
    } else {
        String::from_str("****")
    }
}

/// A key as it is shown; nothing where it cannot be masked.
pub fn try_mask_api_key(key: &str) -> (shown: Option<String>)
    ensures
        match shown {
            Some(text) => can_be_masked(key@) && text@ == masked_key(key@),
            None => !can_be_masked(key@),
        },
{
    let size = str_byte_len(key);
    if size > 8 && !(str_can_cut(key, 4) && str_can_cut(key, size - 4)) {
        None
    } else {
        Some(mask_api_key(key))
    }
}

impl AppSettings {
    /// Whether the stored key can be masked.
    pub open spec fn key_can_be_masked(self) -> bool {
        self.anthropic_api_key matches Some(key) ==> can_be_masked(key@)
    }

    /// The settings with the key masked, as they are shown.
    pub fn masked(self) -> (shown: AppSettings)
        requires
            self.key_can_be_masked(),
        ensures
            shown@ == self@.masked(),
    {
        AppSettings {
            anthropic_api_key: match &self.anthropic_api_key {
                Some(key) => Some(mask_api_key(key.as_str())),
                None => None,
            },
            use_claude_code: self.use_claude_code,
            mock_mode: self.mock_mode,
            default_model: self.default_model,
            theme: self.theme,
        }
    }

    /// The settings with the key masked; nothing where the key cannot be
    /// masked.
    pub fn try_masked(self) -> (shown: Option<AppSettings>)
        ensures
            match shown {
                Some(settings) => self.key_can_be_masked() && settings@ == self@.masked(),
                None => !self.key_can_be_masked(),
            },
    {
        let maskable = match &self.anthropic_api_key {
            Some(key) => try_mask_api_key(key.as_str()).is_some(),
            None => true,
        };
        if maskable {
            Some(self.masked())
        } else {
            None
        }
    }

    /// Merges an update into the settings: only the parts that are given
    /// change. A masked key is taken for the stored key shown back and
    /// changes nothing; an empty key removes the stored one.
    pub fn apply_update(
        &mut self,
        anthropic_api_key: Option<String>,
        use_claude_code: Option<bool>,
        mock_mode: Option<bool>,
        default_model: Option<String>,
        theme: Option<String>,
    )
        ensures
            final(self)@ == old(self)@.updated(
                option_text(anthropic_api_key),
                use_claude_code,
                mock_mode,
                option_text(default_model),
                option_text(theme),
            ),
    {
        if let Some(key) = anthropic_api_key {
            if !str_contains(key.as_str(), "...") && !str_eq(key.as_str(), "****") {
                self.anthropic_api_key = if key.as_str().is_empty() {
                    None
                } else {
                    Some(key)
                };
            }
        }
        if let Some(flag) = use_claude_code {
            self.use_claude_code = flag;
        }
        if let Some(flag) = mock_mode {
            self.mock_mode = flag;
        }
        if let Some(name) = default_model {
            self.default_model = name;
        }
        if let Some(name) = theme {
            self.theme = name;
        }
    }

    /// Whether a key is stored, and not an empty one.
    pub fn has_api_key(&self) -> (present: bool)
        ensures
            present == self@.has_key(),
    {
        match &self.anthropic_api_key {
            Some(key) => !key.as_str().is_empty(),
            None => false,
        }
    }

    /// Checks the form of the stored key: it begins with `sk-ant-`.
    pub fn validate_api_key(&self) -> (outcome: Result<bool, String>)
        ensures
            match outcome {
                Ok(valid) => {
                    &&& valid
                    &&& self@.anthropic_api_key matches Some(key)
                    &&& has_prefix(key, "sk-ant-"@)
                },
                Err(reason) => match self@.anthropic_api_key {
                    None => reason@ == "No API key configured"@,
                    Some(key) => !has_prefix(key, "sk-ant-"@) && reason@
                        == "Invalid API key format"@,
                },
            },
    {
        match &self.anthropic_api_key {
            None => Err(String::from_str("No API key configured")),
            Some(key) => {
                if str_starts_with(key.as_str(), "sk-ant-") {
                    Ok(true)
                } else {
                    Err(String::from_str("Invalid API key format"))
                }
            },
        }
    }
}

/// The answer to a request for the settings or for a change of them.
#[derive(Debug)]
pub struct SettingsResponse {
    pub success: bool,
    pub settings: Option<AppSettings>,
    pub error: Option<String>,
}

impl SettingsResponse {
    /// The answer that shows settings: with the key masked.
    pub fn showing(settings: AppSettings) -> (response: Self)
        requires
            settings.key_can_be_masked(),
        ensures
            response.success,
            response.settings matches Some(shown) && shown@ == settings@.masked(),
            response.error is None,
    {
        SettingsResponse { success: true, settings: Some(settings.masked()), error: None }
    }

    /// The answer that reports a failure.
    pub fn failed(reason: String) -> (response: Self)
        ensures
            !response.success,
            response.settings is None,
            response.error == Some(reason),
    {
        SettingsResponse { success: false, settings: None, error: Some(reason) }
    }
}

/// Whether the command-line assistant is installed, and in which version.
#[derive(Debug)]
pub struct ClaudeCodeStatus {
    pub installed: bool,
    pub version: Option<String>,
    pub error: Option<String>,
}

/// What came of asking the command-line assistant for its version.
#[derive(Debug)]
pub enum ProbeOutcome {
    /// The command ran; `success` tells whether it exited with success.
    Ran { success: bool, stdout: String, stderr: String },
    /// There is no such command.
    NotFound,
    /// The command could not be run for another reason.
    Failed { reason: String },
}

impl ClaudeCodeStatus {
    /// The status that a probe comes to. A command that ran with success is
    /// installed, in the version it printed; one that ran without success
    /// is reported with what it wrote to its error stream. For a command
    /// that is not there the caller's `install_hint` is the report, and for
    /// one that could not be run the reason after the caller's
    /// `failure_prefix`.
    pub fn from_probe(outcome: ProbeOutcome, install_hint: &str, failure_prefix: &str) -> (status:
        Self)
        ensures
            match outcome {
                ProbeOutcome::Ran { success, stdout, stderr } => if success {
                    &&& status.installed
                    &&& option_text(status.version) == Some(trimmed(stdout@))
                    &&& status.error is None
                } else {
                    &&& !status.installed
                    &&& status.version is None
                    &&& option_text(status.error) == Some("Command failed: "@ + stderr@)
                },
                ProbeOutcome::NotFound => {
                    &&& !status.installed
                    &&& status.version is None
                    &&& option_text(status.error) == Some(install_hint@)
                },
                ProbeOutcome::Failed { reason } => {
                    &&& !status.installed
                    &&& status.version is None
                    &&& option_text(status.error) == Some(failure_prefix@ + reason@)
                },
            },
    {
        match outcome {
            ProbeOutcome::Ran { success, stdout, stderr } => {
                if success {
                    ClaudeCodeStatus {
                        installed: true,
                        version: Some(str_trim(stdout.as_str())),
                        error: None,
                    }
                } else {
                    ClaudeCodeStatus {
                        installed: false,
                        version: None,
                        error: Some(concat2("Command failed: ", stderr.as_str())),
                    }
                }
            },
            ProbeOutcome::NotFound => ClaudeCodeStatus {
                installed: false,
                version: None,
                error: Some(String::from_str(install_hint)),
            },
            ProbeOutcome::Failed { reason } => ClaudeCodeStatus {
                installed: false,
                version: None,
                error: Some(concat2(failure_prefix, reason.as_str())),
            },
        }
    }
}

} // verus!
