//! Profiles of Google Chrome as it is installed on the machine.

use vstd::prelude::*;
use vstd::string::StringExecFns;
use crate::chromium::chromium::{
    debugging_arguments, disabled_features, disabled_features_text, headless_arguments,
    proxy_arguments, push_debugging_port, push_headless, push_webrtc, webrtc_arguments,
};
use crate::fingerprint_manager::SingleFingerprint;
use crate::proxy_manager::ProxyConfig;
use crate::text::{joined, push_text, texts};

verus! {

/// One profile of Google Chrome.
#[derive(Debug)]
pub struct ChromeProfile {
    pub name: String,
    /// The profile's user-data directory.
    pub path: String,
    /// The remote-debugging port; 0 where the profile is not debugged.
    pub debugging_port: u16,
    pub headless: bool,
    pub proxy: ProxyConfig,
    /// `block` keeps WebRTC from revealing the local address.
    pub webrtc: String,
    pub fingerprint: SingleFingerprint,
}

impl Clone for ChromeProfile {
    fn clone(&self) -> (r: Self)
        ensures
            r.name == self.name,
            r.path == self.path,
            r.debugging_port == self.debugging_port,
            r.headless == self.headless,
            r.proxy.same_proxy(&self.proxy),
            r.proxy.same_findings(&self.proxy),
            r.webrtc == self.webrtc,
            r.fingerprint == self.fingerprint,
    {
        ChromeProfile {
            name: self.name.clone(),
            path: self.path.clone(),
            debugging_port: self.debugging_port,
            headless: self.headless,
            proxy: self.proxy.clone(),
            webrtc: self.webrtc.clone(),
            fingerprint: self.fingerprint.clone(),
        }
    }
}

/// The operating system that the program runs on.
#[derive(Clone, Copy, Debug, PartialEq, Eq, Structural)]
pub enum Platform {
    Windows,
    MacOs,
    Linux,
    Other,
}

/// Why Chrome cannot be started.
#[derive(Clone, Copy, Debug, PartialEq, Eq, Structural)]
pub enum LaunchError {
    /// Chrome's place on this operating system is not known.
    UnsupportedOs,
}

/// Where Chrome is installed on an operating system.
pub open spec fn chrome_path_text(platform: Platform) -> Option<Seq<char>> {
    match platform {
        Platform::Windows => Some("C:\\Program Files\\Google\\Chrome\\Application\\chrome.exe"@),
        Platform::MacOs => Some("/Applications/Google Chrome.app/Contents/MacOS/Google Chrome"@),
        Platform::Linux => Some("/usr/bin/google-chrome"@),
        Platform::Other => None,
    }
}

/// The arguments of a launch, in their order.
pub open spec fn chrome_arguments(profile: ChromeProfile) -> Seq<Seq<char>> {
    seq![
        "--user-data-dir="@ + profile.path@,
        "--no-first-run"@,
        "--no-default-browser-check"@,
        disabled_features_text(),
    ] + debugging_arguments(profile.debugging_port) + headless_arguments(profile.headless)
        + proxy_arguments(profile.proxy) + webrtc_arguments(profile.webrtc@, "block"@)
}

/// The view of a path that may be unknown.
pub open spec fn path_view(path: Option<&'static str>) -> Option<Seq<char>> {
    match path {
        Some(p) => Some(p@),
        None => None,
    }
}

/// Where Chrome is installed on an operating system.
pub fn chrome_path(platform: Platform) -> (r: Option<&'static str>)
    ensures
        path_view(r) == chrome_path_text(platform),
{
    match platform {
        Platform::Windows => Some("C:\\Program Files\\Google\\Chrome\\Application\\chrome.exe"),
        Platform::MacOs => Some("/Applications/Google Chrome.app/Contents/MacOS/Google Chrome"),
        Platform::Linux => Some("/usr/bin/google-chrome"),
        Platform::Other => None,
    }
}

/// Chrome's command line for a profile: the program and its arguments.
/// There is none on an operating system where Chrome's place is not known.
pub fn open_chrome(profile: &ChromeProfile, platform: Platform) -> (r: Result<
    (&'static str, Vec<String>),
    LaunchError,
>)
    ensures
        match r {
            Ok((program, args)) => chrome_path_text(platform) == Some(program@) && texts(args@)
                == chrome_arguments(*profile),
            Err(e) => chrome_path_text(platform) is None && e == LaunchError::UnsupportedOs,
        },
{
    let program = match chrome_path(platform) {
        Some(program) => program,
        None => {
            return Err(LaunchError::UnsupportedOs);
        },
    };
    let mut args: Vec<String> = Vec::new();
    assert(texts(args@) =~= Seq::<Seq<char>>::empty());
    push_text(&mut args, joined("--user-data-dir=", profile.path.as_str()));
    push_text(&mut args, String::from_str("--no-first-run"));
    push_text(&mut args, String::from_str("--no-default-browser-check"));
    push_text(&mut args, String::from_str(disabled_features()));
    push_debugging_port(&mut args, profile.debugging_port);
    push_headless(&mut args, profile.headless);
    if !profile.proxy.proxy_name.as_str().is_empty() {
        let mut server = String::from_str("--proxy-server=");
        server.append(profile.proxy.proxy_type.as_str());
        server.append("://");
        server.append(profile.proxy.proxy_host.as_str());
        server.append(":");
        server.append(profile.proxy.proxy_port.as_str());
        push_text(&mut args, server);
        push_text(&mut args, joined("--lang=", profile.proxy.lang_arg.as_str()));
        push_text(&mut args, joined("--accept-lang=", profile.proxy.accept_language_arg.as_str()));
    }
    assert(texts(args@) =~= seq![
        "--user-data-dir="@ + profile.path@,
        "--no-first-run"@,
        "--no-default-browser-check"@,
        disabled_features_text(),
    ] + debugging_arguments(profile.debugging_port) + headless_arguments(profile.headless)
        + proxy_arguments(profile.proxy));
    push_webrtc(&mut args, profile.webrtc.as_str(), "block");
    assert(texts(args@) =~= chrome_arguments(*profile));
    Ok((program, args))
}

/// Whether a DevTools listener is to be started on the running profile.
pub fn opens_listener(profile: &ChromeProfile) -> (r: bool)
    ensures
        r == (profile.debugging_port != 0),
{
    profile.debugging_port != 0
}

} // verus!
