//! Display names of well-known desktop applications, from their executable
//! paths.
use vstd::prelude::*;
use vstd::string::*;

use crate::text::{contains, contains_text, lower_of, to_lowercase};

verus! {

/// The display name the table gives an executable path.
pub open spec fn app_name_for_path(path: Seq<char>) -> Option<Seq<char>> {
    let l = lower_of(path);
    if contains_text(l, "cursor"@) {
        Some("Cursor"@)
    } else if contains_text(l, "code.exe"@) || (contains_text(l, "code"@) && contains_text(l, "microsoft"@)) {
        Some("Visual Studio Code"@)
    } else if contains_text(l, "firefox"@) {
        Some("Mozilla Firefox"@)
    } else if contains_text(l, "chrome"@) && !contains_text(l, "edge"@) {
        Some("Google Chrome"@)
    } else if contains_text(l, "msedge"@) || contains_text(l, "edge"@) {
        Some("Microsoft Edge"@)
    } else if contains_text(l, "brave"@) {
        Some("Brave Browser"@)
    } else if contains_text(l, "opera"@) {
        Some("Opera"@)
    } else if contains_text(l, "notepad++"@) {
        Some("Notepad++"@)
    } else if contains_text(l, "notepad"@) && !contains_text(l, "++"@) {
        Some("Notepad"@)
    } else if contains_text(l, "applicationframehost"@) {
        None
    } else if contains_text(l, "devenv"@) {
        Some("Visual Studio"@)
    } else if contains_text(l, "pycharm"@) {
        Some("PyCharm"@)
    } else if contains_text(l, "idea"@) && (contains_text(l, "jetbrains"@) || contains_text(l, "intellij"@)) {
        Some("IntelliJ IDEA"@)
    } else if contains_text(l, "webstorm"@) {
        Some("WebStorm"@)
    } else if contains_text(l, "sublime"@) {
        Some("Sublime Text"@)
    } else if contains_text(l, "atom"@) {
        Some("Atom"@)
    } else if contains_text(l, "explorer.exe"@) || contains_text(l, "explorer"@) {
        Some("File Explorer"@)
    } else if contains_text(l, "winword"@) {
        Some("Microsoft Word"@)
    } else if contains_text(l, "excel"@) {
        Some("Microsoft Excel"@)
    } else if contains_text(l, "powerpnt"@) {
        Some("Microsoft PowerPoint"@)
    } else if contains_text(l, "outlook"@) {
        Some("Microsoft Outlook"@)
    } else if contains_text(l, "teams"@) {
        Some("Microsoft Teams"@)
    } else if contains_text(l, "slack"@) {
        Some("Slack"@)
    } else if contains_text(l, "discord"@) {
        Some("Discord"@)
    } else if contains_text(l, "zoom"@) {
        Some("Zoom"@)
    } else if contains_text(l, "spotify"@) {
        Some("Spotify"@)
    } else if contains_text(l, "vlc"@) {
        Some("VLC Media Player"@)
    } else if contains_text(l, "photoshop"@) {
        Some("Adobe Photoshop"@)
    } else if contains_text(l, "illustrator"@) {
        Some("Adobe Illustrator"@)
    } else if contains_text(l, "acrobat"@) {
        Some("Adobe Acrobat"@)
    } else {
        None
    }
}

/// The display name of a well-known application from its executable path,
/// matched case-insensitively; the first listed match wins.  `None` for
/// unknown paths and for the UWP frame host, whose app is found otherwise.
pub fn get_app_name_from_mapping(exe_path: &str) -> (r: Option<String>)
    ensures
        match r {
            Some(n) => app_name_for_path(exe_path@) == Some(n@),
            None => app_name_for_path(exe_path@) is None,
        },
{
    let lower = to_lowercase(exe_path);
    let l = lower.as_str();
    if contains(l, "cursor") {
        return Some(String::from_str("Cursor"));
    }
    if contains(l, "code.exe") || (contains(l, "code") && contains(l, "microsoft")) {
        return Some(String::from_str("Visual Studio Code"));
    }
    if contains(l, "firefox") {
        return Some(String::from_str("Mozilla Firefox"));
    }
    if contains(l, "chrome") && !contains(l, "edge") {
        return Some(String::from_str("Google Chrome"));
    }
    if contains(l, "msedge") || contains(l, "edge") {
        return Some(String::from_str("Microsoft Edge"));
    }
    if contains(l, "brave") {
        return Some(String::from_str("Brave Browser"));
    }
    if contains(l, "opera") {
        return Some(String::from_str("Opera"));
    }
    if contains(l, "notepad++") {
        return Some(String::from_str("Notepad++"));
    }
    if contains(l, "notepad") && !contains(l, "++") {
        return Some(String::from_str("Notepad"));
    }
    if contains(l, "applicationframehost") {
        return None;
    }
    if contains(l, "devenv") {
        return Some(String::from_str("Visual Studio"));
    }
    if contains(l, "pycharm") {
        return Some(String::from_str("PyCharm"));
    }
    if contains(l, "idea") && (contains(l, "jetbrains") || contains(l, "intellij")) {
        return Some(String::from_str("IntelliJ IDEA"));
    }
    if contains(l, "webstorm") {
        return Some(String::from_str("WebStorm"));
    }
    if contains(l, "sublime") {
        return Some(String::from_str("Sublime Text"));
    }
    if contains(l, "atom") {
        return Some(String::from_str("Atom"));
    }
    if contains(l, "explorer.exe") || contains(l, "explorer") {
        return Some(String::from_str("File Explorer"));
    }
    if contains(l, "winword") {
        return Some(String::from_str("Microsoft Word"));
    }
    if contains(l, "excel") {
        return Some(String::from_str("Microsoft Excel"));
    }
    if contains(l, "powerpnt") {
        return Some(String::from_str("Microsoft PowerPoint"));
    }
    if contains(l, "outlook") {
        return Some(String::from_str("Microsoft Outlook"));
    }
    if contains(l, "teams") {
        return Some(String::from_str("Microsoft Teams"));
    }
    if contains(l, "slack") {
        return Some(String::from_str("Slack"));
    }
    if contains(l, "discord") {
        return Some(String::from_str("Discord"));
    }
    if contains(l, "zoom") {
        return Some(String::from_str("Zoom"));
    }
    if contains(l, "spotify") {
        return Some(String::from_str("Spotify"));
    }
    if contains(l, "vlc") {
        return Some(String::from_str("VLC Media Player"));
    }
    if contains(l, "photoshop") {
        return Some(String::from_str("Adobe Photoshop"));
    }
    if contains(l, "illustrator") {
        return Some(String::from_str("Adobe Illustrator"));
    }
    if contains(l, "acrobat") {
        return Some(String::from_str("Adobe Acrobat"));
    }
    None
}

} // verus!
