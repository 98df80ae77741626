//! The browsers that are installed in their usual places.

use vstd::prelude::*;
use vstd::string::StringExecFns;
use crate::chromium::chromium::ChromiumProfile;
use crate::fingerprint_manager::SingleFingerprint;
use crate::proxy_manager::ProxyConfig;
use crate::text::{blank, is_blank};

verus! {

/// An installed browser.
#[derive(Debug)]
pub struct Browsers {
    pub name: String,
    pub path: String,
}

impl Clone for Browsers {
    fn clone(&self) -> (r: Self)
        ensures
            r == *self,
    {
        Browsers { name: self.name.clone(), path: self.path.clone() }
    }
}

/// Where Google Chrome is installed.
pub open spec fn chrome_path_text() -> Seq<char> {
    "C:\\Program Files\\Google\\Chrome\\Application\\chrome.exe"@
}

/// Where Microsoft Edge is installed.
pub open spec fn edge_path_text() -> Seq<char> {
    "C:\\Program Files (x86)\\Microsoft\\Edge\\Application\\msedge.exe"@
}

/// Where Google Chrome is installed.
pub fn chrome_path() -> (r: &'static str)
    ensures
        r@ == chrome_path_text(),
{
    "C:\\Program Files\\Google\\Chrome\\Application\\chrome.exe"
}

/// Where Microsoft Edge is installed.
pub fn edge_path() -> (r: &'static str)
    ensures
        r@ == edge_path_text(),
{
    "C:\\Program Files (x86)\\Microsoft\\Edge\\Application\\msedge.exe"
}

/// The names and paths of a list of browsers.
pub open spec fn listed(browsers: Seq<Browsers>) -> Seq<(Seq<char>, Seq<char>)> {
    browsers.map_values(|b: Browsers| (b.name@, b.path@))
}

/// The installed browsers among the known ones, Chrome first. Whether the
/// executable at `chrome_path` and the one at `edge_path` exist is for the
/// caller to find out.
pub fn discover_installed_browsers(chrome_exists: bool, edge_exists: bool) -> (browsers: Vec<
    Browsers,
>)
    ensures
        listed(browsers@) == (if chrome_exists {
            seq![("Google Chrome"@, chrome_path_text())]
        } else {
            seq![]
        }) + (if edge_exists {
            seq![("Edge"@, edge_path_text())]
        } else {
            seq![]
        }),
{
    let mut browsers: Vec<Browsers> = Vec::new();
    if chrome_exists {
        browsers.push(
            Browsers {
                name: String::from_str("Google Chrome"),
                path: String::from_str(chrome_path()),
            },
        );
    }
    if edge_exists {
        browsers.push(
            Browsers { name: String::from_str("Edge"), path: String::from_str(edge_path()) },
        );
    }
    assert(listed(browsers@) =~= (if chrome_exists {
        seq![("Google Chrome"@, chrome_path_text())]
    } else {
        seq![]
    }) + (if edge_exists {
        seq![("Edge"@, edge_path_text())]
    } else {
        seq![]
    }));
    browsers
}

/// Why the form creates no profile.
#[derive(Clone, Copy, Debug, PartialEq, Eq, Structural)]
pub enum SectionError {
    /// No browser is selected.
    NoBrowser,
    /// The profile has no name, or one of white space only.
    NoName,
}

/// The position of the first browser at or after `from` with the given
/// path; the number of browsers if there is none.
pub open spec fn position_of_path(browsers: Seq<Browsers>, path: Seq<char>, from: int) -> int
    decreases browsers.len() - from,
{
    if from < 0 || from >= browsers.len() {
        browsers.len() as int
    } else if browsers[from].path@ == path {
        from
    } else {
        position_of_path(browsers, path, from + 1)
    }
}

/// A browser that the user registers: under the typed name, or as
/// `Custom Browser` where no name was typed.
pub fn custom_browser(name: &str, path: &str) -> (r: Browsers)
    ensures
        r.path@ == path@,
        r.name@ == if blank(name@) {
            "Custom Browser"@
        } else {
            name@
        },
{
    let name = if is_blank(name) {
        String::from_str("Custom Browser")
    } else {
        String::from_str(name)
    };
    Browsers { name, path: String::from_str(path) }
}

/// Adds a browser to the list unless the list holds its path already;
/// tells whether it was added.
pub fn add_custom_browser(browsers: &mut Vec<Browsers>, browser: Browsers) -> (added: bool)
    ensures
        added == (position_of_path(old(browsers)@, browser.path@, 0) == old(browsers)@.len()),
        added ==> final(browsers)@ == old(browsers)@.push(browser),
        !added ==> final(browsers)@ == old(browsers)@,
{
    let mut i: usize = 0;
    while i < browsers.len()
        invariant
            i <= browsers.len(),
            browsers@ == old(browsers)@,
            position_of_path(browsers@, browser.path@, 0) == position_of_path(
                browsers@,
                browser.path@,
                i as int,
            ),
        decreases browsers.len() - i,
    {
        if browsers[i].path == browser.path {
            return false;
        }
        i += 1;
    }
    browsers.push(browser);
    true
}

/// Whether a profile's directory goes under the user's own path.
pub fn uses_custom_path(use_custom_path: bool, custom_profile_path: &str) -> (r: bool)
    ensures
        r == (use_custom_path && custom_profile_path@.len() != 0),
{
    use_custom_path && !custom_profile_path.is_empty()
}

/// The profile that the form creates in the directory `path`: headless for
/// its first start, with the image setting given. Without a selected
/// browser or without a name there is none.
pub fn new_profile(
    selected_browser_path: &str,
    new_profile_name: &str,
    path: &str,
    images: u8,
) -> (r: Result<ChromiumProfile, SectionError>)
    ensures
        match r {
            Ok(profile) => {
                &&& selected_browser_path@.len() != 0
                &&& !blank(new_profile_name@)
                &&& profile.name@ == new_profile_name@
                &&& profile.browser_path@ == selected_browser_path@
                &&& profile.path@ == path@
                &&& profile.debugging_port == 0
                &&& profile.headless
                &&& profile.proxy.proxy_name@.len() == 0
                &&& profile.webrtc@.len() == 0
                &&& profile.custom_flags@.len() == 0
                &&& profile.images == images
                &&& profile.fingerprint.os_type@.len() == 0
            },
            Err(SectionError::NoBrowser) => selected_browser_path@.len() == 0,
            Err(SectionError::NoName) => selected_browser_path@.len() != 0 && blank(
                new_profile_name@,
            ),
        },
{
    if selected_browser_path.is_empty() {
        return Err(SectionError::NoBrowser);
    }
    if is_blank(new_profile_name) {
        return Err(SectionError::NoName);
    }
    Ok(
        ChromiumProfile {
            name: String::from_str(new_profile_name),
            browser_path: String::from_str(selected_browser_path),
            path: String::from_str(path),
            debugging_port: 0,
            headless: true,
            proxy: ProxyConfig::new(),
            webrtc: String::new(),
            custom_flags: String::new(),
            images,
            fingerprint: SingleFingerprint::new(),
        },
    )
}

} // verus!
