//! Which window theme the settings ask for.

use vstd::prelude::*;

use crate::conf::AppConf;

verus! {

/// The theme the windows are drawn with.
#[derive(PartialEq, Eq, Structural, Clone, Copy, Debug)]
pub enum Theme {
    Light,
    Dark,
}

/// The colour mode the desktop reports.
#[derive(PartialEq, Eq, Structural, Clone, Copy, Debug)]
pub enum SystemMode {
    Dark,
    Light,
    /// The desktop did not say.
    Default,
}

/// The theme for a theme setting: "system" follows the desktop (light when
/// the desktop does not say), "dark" is dark, anything else is light.
pub open spec fn theme_for_setting(setting: Seq<char>, system: SystemMode) -> Theme {
    if setting == "system"@ {
        match system {
            SystemMode::Dark => Theme::Dark,
            _ => Theme::Light,
        }
    } else if setting == "dark"@ {
        Theme::Dark
    } else {
        Theme::Light
    }
}

/// Whether two strings hold the same characters.
pub fn text_eq(a: &str, b: &str) -> (r: bool)
    ensures
        r == (a@ == b@),
{
    let n = a.unicode_len();
    if n != b.unicode_len() {
        return false;
    }
    let mut i: usize = 0;
    while i < n
        invariant
            n == a@.len(),
            n == b@.len(),
            i <= n,
            forall|j: int| 0 <= j < i ==> a@[j] == b@[j],
        decreases n - i,
    {
        if a.get_char(i) != b.get_char(i) {
            return false;
        }
        i = i + 1;
    }
    assert(a@ =~= b@);
    true
}

/// The theme for `setting` given the colour mode the desktop reports.
pub fn theme_from(setting: &str, system: SystemMode) -> (t: Theme)
    ensures
        t == theme_for_setting(setting@, system),
        setting@ == "dark"@ ==> t == Theme::Dark,
        setting@ != "system"@ && setting@ != "dark"@ ==> t == Theme::Light,
{
    proof {
        lemma_theme_choice(setting@, system, system);
    }
    if text_eq(setting, "system") {
        match system {
            SystemMode::Dark => Theme::Dark,
            _ => Theme::Light,
        }
    } else if text_eq(setting, "dark") {
        Theme::Dark
    } else {
        Theme::Light
    }
}

impl AppConf {
    /// The theme these settings ask for, given the colour mode the desktop
    /// reports, which matters only when the setting is "system".
    pub fn get_theme(&self, system: SystemMode) -> (t: Theme)
        ensures
            t == theme_for_setting(self.theme@, system),
    {
        theme_from(self.theme.as_str(), system)
    }
}

/// The theme law: "dark" is dark whatever the desktop reports; a setting
/// other than "system" never depends on the desktop, and one that is
/// neither "system" nor "dark" is light; "system" is dark exactly when the
/// desktop reports dark.
pub proof fn lemma_theme_choice(setting: Seq<char>, s1: SystemMode, s2: SystemMode)
    ensures
        theme_for_setting("dark"@, s1) == Theme::Dark,
        setting != "system"@ ==> theme_for_setting(setting, s1) == theme_for_setting(setting, s2),
        setting != "system"@ && setting != "dark"@ ==> theme_for_setting(setting, s1) == Theme::Light,
        (theme_for_setting("system"@, s1) == Theme::Dark) <==> (s1 == SystemMode::Dark),
{
    reveal_strlit("dark");
    reveal_strlit("system");
    assert("dark"@.len() == 4);
    assert("system"@.len() == 6);
    assert("dark"@ != "system"@);
}

} // verus!
