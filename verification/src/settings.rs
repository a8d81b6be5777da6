//! Process-wide configuration, persisted by the shell as key/value
//! pairs.  Absent keys fall back to their documented defaults.

use vstd::prelude::*;
use vstd::string::StringExecFns;

verus! {

/// The scan cadence used when none is stored, in seconds.
pub const DEFAULT_REFRESH_SECS: u64 = 300;

/// The stored configuration.  `None` means the key was never written.
pub struct Settings {
    pub theme: Option<String>,
    pub refresh_secs: Option<u64>,
    pub show_notification: Option<bool>,
    pub token: Option<String>,
}

/// The theme in effect: the stored one, or "system".
pub open spec fn spec_theme(s: Settings) -> Seq<char> {
    match s.theme {
        Option::Some(t) => t@,
        Option::None => "system"@,
    }
}

/// The cadence in effect: the stored one, or the default.
pub open spec fn spec_refresh_secs(s: Settings) -> u64 {
    match s.refresh_secs {
        Option::Some(t) => t,
        Option::None => DEFAULT_REFRESH_SECS,
    }
}

/// Whether notifications are in effect: the stored flag, or true.
pub open spec fn spec_show_notification(s: Settings) -> bool {
    match s.show_notification {
        Option::Some(b) => b,
        Option::None => true,
    }
}

impl Settings {
    /// All keys unwritten.
    pub fn new() -> (s: Self)
        ensures
            s.theme is None,
            s.refresh_secs is None,
            s.show_notification is None,
            s.token is None,
    {
        Settings { theme: None, refresh_secs: None, show_notification: None, token: None }
    }

    /// The theme in effect.
    pub fn get_theme(&self) -> (r: String)
        ensures
            r@ == spec_theme(*self),
    {
        match &self.theme {
            Option::Some(t) => t.clone(),
            Option::None => String::from_str("system"),
        }
    }

    /// Stores the theme, replacing any previous value.
    pub fn set_theme(&mut self, theme: String)
        ensures
            *final(self) == (Settings { theme: Some(theme), ..*old(self) }),
    {
        self.theme = Some(theme);
    }

    /// The scan cadence in effect, in seconds.
    pub fn get_refresh_secs(&self) -> (r: u64)
        ensures
            r == spec_refresh_secs(*self),
    {
        match self.refresh_secs {
            Option::Some(t) => t,
            Option::None => DEFAULT_REFRESH_SECS,
        }
    }

    /// Stores the scan cadence, replacing any previous value.  The
    /// cadence is a positive number of seconds.
    pub fn set_refresh_secs(&mut self, secs: u64)
        requires
            secs >= 1,
        ensures
            *final(self) == (Settings { refresh_secs: Some(secs), ..*old(self) }),
    {
        self.refresh_secs = Some(secs);
    }

    /// Whether notifications are in effect.
    pub fn get_show_notification(&self) -> (r: bool)
        ensures
            r == spec_show_notification(*self),
    {
        match self.show_notification {
            Option::Some(b) => b,
            Option::None => true,
        }
    }

    /// Stores the notification flag, replacing any previous value.
    pub fn set_show_notification(&mut self, show: bool)
        ensures
            *final(self) == (Settings { show_notification: Some(show), ..*old(self) }),
    {
        self.show_notification = Some(show);
    }

    /// A copy of the stored credential, if any.
    pub fn get_token(&self) -> (r: Option<String>)
        ensures
            r == self.token,
    {
        match &self.token {
            Option::Some(t) => Some(t.clone()),
            Option::None => None,
        }
    }

    /// Whether a credential is stored.
    pub fn has_token(&self) -> (r: bool)
        ensures
            r == (self.token is Some),
    {
        match &self.token {
            Option::Some(_) => true,
            Option::None => false,
        }
    }

    /// Stores the credential; at most one is ever held, so any previous
    /// one is fully replaced.
    pub fn set_token(&mut self, token: String)
        ensures
            *final(self) == (Settings { token: Some(token), ..*old(self) }),
    {
        self.token = Some(token);
    }
}

} // verus!
