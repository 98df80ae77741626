//! A browser profile with its launch settings.

use vstd::prelude::*;
use vstd::string::StringExecFns;
use crate::fingerprint_manager::SingleFingerprint;
use crate::policy::ImagePolicy;
use crate::proxy_manager::ProxyConfig;
use crate::text::{append_decimal, decimal_text, is_word, joined, push_text, texts};

verus! {

/// One browser profile: a user-data directory and how the browser is
/// started on it.
#[derive(Debug)]
pub struct ChromiumProfile {
    pub name: String,
    pub browser_path: String,
    /// The profile's user-data directory.
    pub path: String,
    /// The remote-debugging port; 0 where the profile is not debugged.
    pub debugging_port: u16,
    pub headless: bool,
    pub proxy: ProxyConfig,
    /// `block` keeps WebRTC from revealing the local address.
    pub webrtc: String,
    pub custom_flags: String,
    /// 0 loads no images, 2 loads CAPTCHA images only, any other value
    /// loads every image.
    pub images: u8,
    pub fingerprint: SingleFingerprint,
}

/// The switch that turns off the browser features that get in a profile's
/// way.
pub open spec fn disabled_features_text() -> Seq<char> {
    "--disable-features=Translate,LensStandalone,LensOverlay,LensOverlayTranslateButton,LensOverlayContextualSearchBox,LensOverlayLatencyOptimizations,LensOverlayImageContextMenuActions,LensOverlayTranslateLanguages,LensOverlaySidePanelOpenInNewTab"@
}

/// The switches that every launch has.
pub open spec fn extra_arguments(path: Seq<char>) -> Seq<Seq<char>> {
    seq![
        "--user-data-dir="@ + path,
        "--no-first-run"@,
        "--no-default-browser-check"@,
        "--hide-crash-restore-bubble"@,
        disabled_features_text(),
    ]
}

/// The switch for the remote-debugging port, where there is one.
pub open spec fn debugging_arguments(port: u16) -> Seq<Seq<char>> {
    if port != 0 {
        seq!["--remote-debugging-port="@ + decimal_text(port as nat)]
    } else {
        seq![]
    }
}

/// The switch for headless mode.
pub open spec fn headless_arguments(headless: bool) -> Seq<Seq<char>> {
    if headless {
        seq!["--headless"@]
    } else {
        seq![]
    }
}

/// The switches for a proxy with a name: the proxy server and the languages
/// that go with it.
pub open spec fn proxy_arguments(proxy: ProxyConfig) -> Seq<Seq<char>> {
    if proxy.proxy_name@.len() != 0 {
        seq![
            "--proxy-server="@ + proxy.proxy_type@ + "://"@ + proxy.proxy_host@ + ":"@
                + proxy.proxy_port@,
            "--lang="@ + proxy.lang_arg@,
            "--accept-lang="@ + proxy.accept_language_arg@,
        ]
    } else {
        seq![]
    }
}

/// The switches that keep WebRTC off the local network, where `blocked` is
/// the setting that asks for them.
pub open spec fn webrtc_arguments(webrtc: Seq<char>, blocked: Seq<char>) -> Seq<Seq<char>> {
    if webrtc == blocked {
        seq![
            "--webrtc-ip-handling-policy=disable_non_proxied_udp"@,
            "--force-webrtc-ip-handling-policy"@,
        ]
    } else {
        seq![]
    }
}

/// The user's own flags, as one argument.
pub open spec fn custom_arguments(flags: Seq<char>) -> Seq<Seq<char>> {
    if flags.len() != 0 {
        seq![flags]
    } else {
        seq![]
    }
}

/// The switch that turns off the browser features that get in a profile's
/// way.
pub fn disabled_features() -> (r: &'static str)
    ensures
        r@ == disabled_features_text(),
{
    "--disable-features=Translate,LensStandalone,LensOverlay,LensOverlayTranslateButton,LensOverlayContextualSearchBox,LensOverlayLatencyOptimizations,LensOverlayImageContextMenuActions,LensOverlayTranslateLanguages,LensOverlaySidePanelOpenInNewTab"
}

/// Appends the switch for the remote-debugging port, where there is one.
pub fn push_debugging_port(args: &mut Vec<String>, port: u16)
    ensures
        texts(final(args)@) == texts(old(args)@) + debugging_arguments(port),
{
    if port != 0 {
        let mut arg = String::from_str("--remote-debugging-port=");
        append_decimal(&mut arg, port as u64);
        push_text(args, arg);
    }
    assert(texts(args@) =~= texts(old(args)@) + debugging_arguments(port));
}

/// Appends the switch for headless mode, where it is on.
pub fn push_headless(args: &mut Vec<String>, headless: bool)
    ensures
        texts(final(args)@) == texts(old(args)@) + headless_arguments(headless),
{
    if headless {
        push_text(args, String::from_str("--headless"));
    }
    assert(texts(args@) =~= texts(old(args)@) + headless_arguments(headless));
}

/// Appends the switches that keep WebRTC off the local network, where the
/// setting is `blocked`.
pub fn push_webrtc(args: &mut Vec<String>, webrtc: &str, blocked: &str)
    ensures
        texts(final(args)@) == texts(old(args)@) + webrtc_arguments(webrtc@, blocked@),
{
    if is_word(webrtc, blocked) {
        push_text(args, String::from_str("--webrtc-ip-handling-policy=disable_non_proxied_udp"));
        push_text(args, String::from_str("--force-webrtc-ip-handling-policy"));
    }
    assert(texts(args@) =~= texts(old(args)@) + webrtc_arguments(webrtc@, blocked@));
}

impl Clone for ChromiumProfile {
    fn clone(&self) -> (r: Self)
        ensures
            r.same_settings(self),
    {
        ChromiumProfile {
            name: self.name.clone(),
            browser_path: self.browser_path.clone(),
            path: self.path.clone(),
            debugging_port: self.debugging_port,
            headless: self.headless,
            proxy: self.proxy.clone(),
            webrtc: self.webrtc.clone(),
            custom_flags: self.custom_flags.clone(),
            images: self.images,
            fingerprint: self.fingerprint.clone(),
        }
    }
}

impl ChromiumProfile {
    /// Both profiles hold the same values.
    pub open spec fn same_settings(&self, other: &ChromiumProfile) -> bool {
        &&& self.name == other.name
        &&& self.browser_path == other.browser_path
        &&& self.path == other.path
        &&& self.debugging_port == other.debugging_port
        &&& self.headless == other.headless
        &&& self.proxy.same_proxy(&other.proxy)
        &&& self.proxy.same_findings(&other.proxy)
        &&& self.webrtc == other.webrtc
        &&& self.custom_flags == other.custom_flags
        &&& self.images == other.images
        &&& self.fingerprint == other.fingerprint
    }

    /// A new profile of the given name in the given user-data directory:
    /// not debugged, not headless, without proxy, loading every image.
    pub fn new(name: &str, path: &str) -> (r: Self)
        ensures
            r.name@ == name@,
            r.browser_path@ == "browser_path"@,
            r.path@ == path@,
            r.debugging_port == 0,
            !r.headless,
            r.proxy.proxy_name@.len() == 0,
            r.webrtc@.len() == 0,
            r.custom_flags@.len() == 0,
            r.images == 1,
            r.fingerprint.os_type@.len() == 0,
    {
        ChromiumProfile {
            name: String::from_str(name),
            browser_path: String::from_str("browser_path"),
            path: String::from_str(path),
            debugging_port: 0,
            headless: false,
            proxy: ProxyConfig::new(),
            webrtc: String::new(),
            custom_flags: String::new(),
            images: 1,
            fingerprint: SingleFingerprint::new(),
        }
    }

    /// The arguments of a launch, in their order.
    pub open spec fn arguments(&self) -> Seq<Seq<char>> {
        extra_arguments(self.path@) + debugging_arguments(self.debugging_port)
            + headless_arguments(self.headless) + proxy_arguments(self.proxy) + webrtc_arguments(
            self.webrtc@,
            "block"@,
        ) + custom_arguments(self.custom_flags@)
    }

    /// The profile is debugged: a DevTools session is to be opened on it
    /// once the browser runs.
    pub open spec fn debugged(&self) -> bool {
        self.debugging_port != 0
    }

    /// The profile's image policy.
    pub fn image_policy(&self) -> (policy: ImagePolicy)
        ensures
            policy == ImagePolicy::of_code(self.images),
    {
        ImagePolicy::from_code(self.images)
    }

    /// Whether a DevTools session is to be opened on the running profile.
    pub fn opens_session(&self) -> (r: bool)
        ensures
            r == self.debugged(),
    {
        self.debugging_port != 0
    }

    /// The browser's command line for this profile: the program is
    /// `browser_path`, these are its arguments.
    pub fn open_chromium(&self) -> (args: Vec<String>)
        ensures
            texts(args@) == self.arguments(),
    {
        let mut args: Vec<String> = Vec::new();
        assert(texts(args@) =~= Seq::<Seq<char>>::empty());
        self.add_extra_args(&mut args);
        self.add_debugging_port(&mut args);
        self.add_headless_flag(&mut args);
        self.add_proxy_settings(&mut args);
        self.add_webrtc_settings(&mut args);
        self.add_custom_flags(&mut args);
        assert(texts(args@) =~= self.arguments());
        args
    }

    /// Appends the switches that every launch has.
    pub fn add_extra_args(&self, args: &mut Vec<String>)
        ensures
            texts(final(args)@) == texts(old(args)@) + extra_arguments(self.path@),
    {
        push_text(args, joined("--user-data-dir=", self.path.as_str()));
        push_text(args, String::from_str("--no-first-run"));
        push_text(args, String::from_str("--no-default-browser-check"));
        push_text(args, String::from_str("--hide-crash-restore-bubble"));
        push_text(args, String::from_str(disabled_features()));
        assert(texts(args@) =~= texts(old(args)@) + extra_arguments(self.path@));
    }

    /// Appends the switch for the remote-debugging port.
    pub fn add_debugging_port(&self, args: &mut Vec<String>)
        ensures
            texts(final(args)@) == texts(old(args)@) + debugging_arguments(self.debugging_port),
    {
        push_debugging_port(args, self.debugging_port);
    }

    /// Appends the switch for headless mode.
    pub fn add_headless_flag(&self, args: &mut Vec<String>)
        ensures
            texts(final(args)@) == texts(old(args)@) + headless_arguments(self.headless),
    {
        push_headless(args, self.headless);
    }

    /// Appends the switches for the profile's proxy.
    pub fn add_proxy_settings(&self, args: &mut Vec<String>)
        ensures
            texts(final(args)@) == texts(old(args)@) + proxy_arguments(self.proxy),
    {
        if !self.proxy.proxy_name.as_str().is_empty() {
            let mut server = String::from_str("--proxy-server=");
            server.append(self.proxy.proxy_type.as_str());
            server.append("://");
            server.append(self.proxy.proxy_host.as_str());
            server.append(":");
            server.append(self.proxy.proxy_port.as_str());
            push_text(args, server);
            push_text(args, joined("--lang=", self.proxy.lang_arg.as_str()));
            push_text(args, joined("--accept-lang=", self.proxy.accept_language_arg.as_str()));
        }
        assert(texts(args@) =~= texts(old(args)@) + proxy_arguments(self.proxy));
    }

    /// Appends the switches that keep WebRTC off the local network.
    pub fn add_webrtc_settings(&self, args: &mut Vec<String>)
        ensures
            texts(final(args)@) == texts(old(args)@) + webrtc_arguments(self.webrtc@, "block"@),
    {
        push_webrtc(args, self.webrtc.as_str(), "block");
    }

    /// Appends the user's own flags.
    pub fn add_custom_flags(&self, args: &mut Vec<String>)
        ensures
            texts(final(args)@) == texts(old(args)@) + custom_arguments(self.custom_flags@),
    {
        if !self.custom_flags.as_str().is_empty() {
            push_text(args, self.custom_flags.clone());
        }
        assert(texts(args@) =~= texts(old(args)@) + custom_arguments(self.custom_flags@));
    }
}

} // verus!
