//! The browsers that a link can be opened in.
use vstd::prelude::*;

use crate::error_reporter::strings_view;
use crate::text::{lower_of, lowercase};

verus! {

/// A browser that a link can be opened in.
#[derive(Debug, Clone, Copy, PartialEq, Eq, Hash, Structural)]
pub enum Browser {
    /// Firefox web browser
    Firefox,
    /// Chrome web browser
    Chrome,
    /// Brave web browser
    Brave,
    /// The user's default browser
    Default,
}

/// Possible errors when opening a browser.
#[derive(Debug, Clone, PartialEq, Eq)]
pub enum BrowserOpenError {
    NotFound,
    Other(String),
}

/// The names of the browsers, as offered to the user.
pub open spec fn browser_names() -> Seq<Seq<char>> {
    seq!["Default"@, "Firefox"@, "Chrome"@, "Brave"@]
}

/// The program that starts a browser on Windows.
pub open spec fn windows_name(b: Browser) -> Seq<char> {
    match b {
        Browser::Firefox => "firefox"@,
        Browser::Chrome => "chrome"@,
        Browser::Brave => "brave"@,
        Browser::Default => Seq::empty(),
    }
}

/// The program that starts a browser on Linux.
pub open spec fn linux_name(b: Browser) -> Seq<char> {
    match b {
        Browser::Firefox => "firefox"@,
        Browser::Chrome => "google-chrome"@,
        Browser::Brave => "brave-browser"@,
        Browser::Default => Seq::empty(),
    }
}

/// The application name of a browser on macOS.
pub open spec fn macos_name(b: Browser) -> Seq<char> {
    match b {
        Browser::Firefox => "Firefox"@,
        Browser::Chrome => "Google Chrome"@,
        Browser::Brave => "Brave Browser"@,
        Browser::Default => Seq::empty(),
    }
}

/// The name under which a browser is shown.
pub open spec fn display_name(b: Browser) -> Seq<char> {
    match b {
        Browser::Firefox => "Firefox"@,
        Browser::Chrome => "Chrome"@,
        Browser::Brave => "Brave"@,
        Browser::Default => "Default Browser"@,
    }
}

/// The browser that a name in lower case stands for; any other name stands
/// for the default browser.
pub open spec fn browser_of_lower(s: Seq<char>) -> Browser {
    if s == "firefox"@ {
        Browser::Firefox
    } else if s == "chrome"@ {
        Browser::Chrome
    } else if s == "brave"@ {
        Browser::Brave
    } else {
        Browser::Default
    }
}

/// The browser that a sample drawn from `0..=2` stands for.
pub open spec fn browser_of_sample(n: u32) -> Browser {
    if n == 0 {
        Browser::Firefox
    } else if n == 1 {
        Browser::Chrome
    } else if n == 2 {
        Browser::Default
    } else {
        Browser::Brave
    }
}

impl Default for Browser {
    fn default() -> (r: Browser)
        ensures
            r == Browser::Default,
    {
        Browser::Default
    }
}

fn eq_literal(s: &String, lit: &str) -> (r: bool)
    ensures
        r == (s@ == lit@),
{
    let l = String::from_str(lit);
    *s == l
}

impl Browser {
    /// The names of the available browsers.
    pub fn get_vec() -> (r: Vec<String>)
        ensures
            strings_view(r@) == browser_names(),
    {
        let r = vec![
            String::from_str("Default"),
            String::from_str("Firefox"),
            String::from_str("Chrome"),
            String::from_str("Brave"),
        ];
        assert(strings_view(r@) =~= browser_names());
        r
    }

    /// The program that starts this browser on Windows; none for the default
    /// browser.
    pub fn get_browser_name_windows(&self) -> (r: Option<&'static str>)
        ensures
            r is None <==> *self == Browser::Default,
            r matches Some(s) ==> s@ == windows_name(*self),
    {
        match self {
            Browser::Firefox => Some("firefox"),
            Browser::Chrome => Some("chrome"),
            Browser::Brave => Some("brave"),
            Browser::Default => None,
        }
    }

    /// The program that starts this browser on Linux; none for the default
    /// browser.
    pub fn get_browser_name_linux(&self) -> (r: Option<&'static str>)
        ensures
            r is None <==> *self == Browser::Default,
            r matches Some(s) ==> s@ == linux_name(*self),
    {
        match self {
            Browser::Firefox => Some("firefox"),
            Browser::Chrome => Some("google-chrome"),
            Browser::Brave => Some("brave-browser"),
            Browser::Default => None,
        }
    }

    /// The application name of this browser on macOS; none for the default
    /// browser.
    pub fn get_browser_name_macos(&self) -> (r: Option<&'static str>)
        ensures
            r is None <==> *self == Browser::Default,
            r matches Some(s) ==> s@ == macos_name(*self),
    {
        match self {
            Browser::Firefox => Some("Firefox"),
            Browser::Chrome => Some("Google Chrome"),
            Browser::Brave => Some("Brave Browser"),
            Browser::Default => None,
        }
    }

    /// The name under which this browser is shown.
    pub fn to_string(&self) -> (r: String)
        ensures
            r@ == display_name(*self),
    {
        match self {
            Browser::Firefox => String::from_str("Firefox"),
            Browser::Chrome => String::from_str("Chrome"),
            Browser::Brave => String::from_str("Brave"),
            Browser::Default => String::from_str("Default Browser"),
        }
    }

    /// The browser with the given name, in any case: `firefox`, `chrome` or
    /// `brave`; any other name gives the default browser.
    pub fn from_name(name: &str) -> (r: Browser)
        ensures
            r == browser_of_lower(lower_of(name@)),
    {
        let lower = lowercase(name);
        if eq_literal(&lower, "firefox") {
            Browser::Firefox
        } else if eq_literal(&lower, "chrome") {
            Browser::Chrome
        } else if eq_literal(&lower, "brave") {
            Browser::Brave
        } else {
            Browser::Default
        }
    }

    /// The browser that a number drawn from `0..=2` stands for.
    pub fn from_sample(n: u32) -> (r: Browser)
        ensures
            r == browser_of_sample(n),
    {
        if n == 0 {
            Browser::Firefox
        } else if n == 1 {
            Browser::Chrome
        } else if n == 2 {
            Browser::Default
        } else {
            Browser::Brave
        }
    }
}

} // verus!
