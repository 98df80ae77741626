use potabrowser::chrome::{chrome_path, open_chrome, opens_listener, ChromeProfile, LaunchError, Platform};
use potabrowser::chromium::chromium::ChromiumProfile;
use potabrowser::fingerprint_manager::{FingerprintManager, SingleFingerprint};
use potabrowser::policy::ImagePolicy;
use potabrowser::proxy_manager::{get_language_settings, proxy_url, replace_checked, CheckError, ProxyConfig};
use potabrowser::proxy_server::{authorization_header, proxy_handler, LISTEN_PORT};
use potabrowser::chromium::driver::{Command, Driver};
use potabrowser::chromium::websocket::{Event, Reaction};
use potabrowser::websocket::{
    answer_event, handle_auth_required, handle_request_paused, start_cdp, start_cdp_listener,
    test_bot,
};

const FEATURES: &str = "--disable-features=Translate,LensStandalone,LensOverlay,LensOverlayTranslateButton,LensOverlayContextualSearchBox,LensOverlayLatencyOptimizations,LensOverlayImageContextMenuActions,LensOverlayTranslateLanguages,LensOverlaySidePanelOpenInNewTab";

#[test]
fn new_profile_has_plain_settings() {
    let profile = ChromiumProfile::new("work", "/srv/chromium_profiles/work");
    assert_eq!(profile.name, "work");
    assert_eq!(profile.browser_path, "browser_path");
    assert_eq!(profile.path, "/srv/chromium_profiles/work");
    assert_eq!(profile.debugging_port, 0);
    assert!(!profile.headless);
    assert_eq!(profile.proxy.proxy_name, "");
    assert_eq!(profile.webrtc, "");
    assert_eq!(profile.custom_flags, "");
    assert_eq!(profile.images, 1);
    assert_eq!(profile.fingerprint.os_type, "");
    assert_eq!(profile.image_policy(), ImagePolicy::AllowAll);
    assert!(!profile.opens_session());
}

#[test]
fn plain_profile_command_line() {
    let profile = ChromiumProfile::new("work", "/srv/work");
    assert_eq!(
        profile.open_chromium(),
        vec!["--user-data-dir=/srv/work", "--no-first-run", "--no-default-browser-check", "--hide-crash-restore-bubble", FEATURES]
    );
}

#[test]
fn full_profile_command_line() {
    let mut profile = ChromiumProfile::new("work", "/srv/work");
    profile.debugging_port = 9222;
    profile.headless = true;
    profile.proxy.proxy_name = "exit".to_string();
    profile.proxy.proxy_type = "socks5".to_string();
    profile.proxy.proxy_host = "10.0.0.1".to_string();
    profile.proxy.proxy_port = "1080".to_string();
    profile.proxy.lang_arg = "fr-FR".to_string();
    profile.proxy.accept_language_arg = "fr-FR,fr;q=0.9".to_string();
    profile.webrtc = "block".to_string();
    profile.custom_flags = "--mute-audio".to_string();
    profile.images = 2;
    assert!(profile.opens_session());
    assert_eq!(profile.image_policy(), ImagePolicy::AllowCaptchaOnly);
    assert_eq!(
        profile.open_chromium(),
        vec![
            "--user-data-dir=/srv/work",
            "--no-first-run",
            "--no-default-browser-check",
            "--hide-crash-restore-bubble",
            FEATURES,
            "--remote-debugging-port=9222",
            "--headless",
            "--proxy-server=socks5://10.0.0.1:1080",
            "--lang=fr-FR",
            "--accept-lang=fr-FR,fr;q=0.9",
            "--webrtc-ip-handling-policy=disable_non_proxied_udp",
            "--force-webrtc-ip-handling-policy",
            "--mute-audio",
        ]
    );
    let mut args = vec!["x".to_string()];
    profile.add_debugging_port(&mut args);
    profile.add_headless_flag(&mut args);
    profile.add_custom_flags(&mut args);
    assert_eq!(args, vec!["x", "--remote-debugging-port=9222", "--headless", "--mute-audio"]);
    let mut args = Vec::new();
    profile.add_webrtc_settings(&mut args);
    profile.add_proxy_settings(&mut args);
    assert_eq!(args.len(), 5);
    let mut args = Vec::new();
    profile.add_extra_args(&mut args);
    assert_eq!(args.len(), 5);
}

fn chrome_profile() -> ChromeProfile {
    ChromeProfile {
        name: "main".to_string(),
        path: "/home/u/chrome_profiles/main".to_string(),
        debugging_port: 0,
        headless: false,
        proxy: ProxyConfig::new(),
        webrtc: String::new(),
        fingerprint: SingleFingerprint::new(),
    }
}

#[test]
fn chrome_command_line() {
    let mut profile = chrome_profile();
    let (program, args) = open_chrome(&profile, Platform::Linux).unwrap();
    assert_eq!(program, "/usr/bin/google-chrome");
    assert_eq!(args, vec!["--user-data-dir=/home/u/chrome_profiles/main", "--no-first-run", "--no-default-browser-check", FEATURES]);
    assert!(!opens_listener(&profile));
    profile.debugging_port = 9333;
    profile.headless = true;
    profile.webrtc = "block".to_string();
    profile.proxy.proxy_name = "p".to_string();
    profile.proxy.proxy_type = "http".to_string();
    profile.proxy.proxy_host = "h".to_string();
    profile.proxy.proxy_port = "8".to_string();
    let (program, args) = open_chrome(&profile, Platform::Windows).unwrap();
    assert_eq!(program, r"C:\Program Files\Google\Chrome\Application\chrome.exe");
    assert_eq!(
        args[4..].to_vec(),
        vec![
            "--remote-debugging-port=9333",
            "--headless",
            "--proxy-server=http://h:8",
            "--lang=",
            "--accept-lang=",
            "--webrtc-ip-handling-policy=disable_non_proxied_udp",
            "--force-webrtc-ip-handling-policy",
        ]
    );
    assert!(opens_listener(&profile));
    assert_eq!(chrome_path(Platform::MacOs), Some("/Applications/Google Chrome.app/Contents/MacOS/Google Chrome"));
    assert_eq!(open_chrome(&profile, Platform::Other).unwrap_err(), LaunchError::UnsupportedOs);
}

#[test]
fn fingerprints_start_empty() {
    assert_eq!(SingleFingerprint::new().os_type, "");
    assert_eq!(FingerprintManager::new().os_type.len(), 0);
}

#[test]
fn language_settings_default_to_american_english() {
    assert_eq!(get_language_settings("IT").lang, "it-IT");
    assert_eq!(get_language_settings("IT").accept_language, "it-IT,it;q=0.9");
    assert_eq!(get_language_settings("FR").lang, "fr-FR");
    assert_eq!(get_language_settings("US").lang, "en-US");
    assert_eq!(get_language_settings("DE").lang, "en-US");
    assert_eq!(get_language_settings("DE").accept_language, "en-US,en;q=0.9");
    assert_eq!(get_language_settings("").lang, "en-US");
}

#[test]
fn named_proxy_check() {
    let mut proxy = ProxyConfig::new();
    assert_eq!(proxy.proxy_name, "");
    assert_eq!(proxy.used_ips.len(), 0);
    proxy.proxy_name = "exit".to_string();
    proxy.proxy_type = "http".to_string();
    proxy.proxy_host = "h".to_string();
    proxy.proxy_port = "3128".to_string();
    proxy.proxy_username = "u".to_string();
    proxy.proxy_password = "p".to_string();
    assert_eq!(proxy.check_url(), "http://u:p@h:3128");
    assert_eq!(proxy_url("socks5", "a", "b", "c", "d"), "socks5://a:b@c:d");
    let proxy = proxy.record_check("{\"ip\":\"192.0.2.1\",\"country\":\"FR\"}").unwrap();
    assert_eq!(proxy.last_ip, "192.0.2.1");
    assert_eq!(proxy.used_ips, vec!["192.0.2.1"]);
    assert_eq!(proxy.country, "FR");
    assert_eq!(proxy.lang_arg, "fr-FR");
    assert_eq!(proxy.accept_language_arg, "fr-FR,fr;q=0.9");
    let proxy = proxy.record_check("{\"ip\":\"192.0.2.2\",\"country\":\"BR\"}").unwrap();
    assert_eq!(proxy.used_ips, vec!["192.0.2.1", "192.0.2.2"]);
    assert_eq!(proxy.lang_arg, "en-US");
    let proxy = proxy.record_check("{\"ip\":\"192.0.2.1\"}").unwrap();
    assert_eq!(proxy.last_ip, "192.0.2.1");
    assert_eq!(proxy.used_ips, vec!["192.0.2.1", "192.0.2.2"]);
    assert_eq!(proxy.country, "Unknown Country");
    let proxy = proxy.record_check("{}").unwrap();
    assert_eq!(proxy.last_ip, "Unknown IP");
    assert_eq!(proxy.used_ips, vec!["192.0.2.1", "192.0.2.2", "Unknown IP"]);
    assert_eq!(proxy.proxy_name, "exit");
    let error = proxy.record_check("<html>").unwrap_err();
    assert_eq!(error, CheckError::Unparseable);
    assert_eq!(error.message(), "Error parsing the response.");
}

#[test]
fn checked_proxy_replaces_its_namesake() {
    let mut first = ProxyConfig::new();
    first.proxy_name = "a".to_string();
    let mut second = ProxyConfig::new();
    second.proxy_name = "b".to_string();
    let mut list = vec![first, second];
    let mut checked = ProxyConfig::new();
    checked.proxy_name = "b".to_string();
    checked.last_ip = "1.1.1.1".to_string();
    assert!(replace_checked(&mut list, checked));
    assert_eq!(list[1].last_ip, "1.1.1.1");
    assert_eq!(list[0].last_ip, "");
    let mut stray = ProxyConfig::new();
    stray.proxy_name = "c".to_string();
    assert!(!replace_checked(&mut list, stray));
    assert_eq!(list.len(), 2);
}

#[test]
fn forwarded_requests_get_credentials() {
    let config = potabrowser::proxy_server::ProxyConfig {
        host: "proxy.test".to_string(),
        port: 3128,
        username: "Aladdin".to_string(),
        password: "open sesame".to_string(),
    };
    assert_eq!(proxy_handler(&config).unwrap(), "Basic QWxhZGRpbjpvcGVuIHNlc2FtZQ==");
    assert_eq!(authorization_header(), "Proxy-Authorization");
    assert_eq!(LISTEN_PORT, 8080);
}

fn listener_profile(images: u8) -> ChromiumProfile {
    let mut profile = ChromiumProfile::new("p", "/p");
    profile.images = images;
    profile.proxy.proxy_username = "u".to_string();
    profile.proxy.proxy_password = "p".to_string();
    profile
}

#[test]
fn listener_numbers_its_answers_from_the_session() {
    let profile = listener_profile(0);
    let mut driver = Driver::new(&profile);
    let enable = start_cdp(&mut driver).unwrap();
    assert_eq!(enable.id, 1);
    assert_eq!(
        enable.text,
        "{\"id\":1,\"method\":\"Fetch.enable\",\"params\":{\"handleAuthRequests\":true,\"patterns\":[{\"requestStage\":\"Request\",\"urlPattern\":\"*\"}]}}"
    );
    let auth = handle_auth_required(&mut driver, "r1", &profile);
    assert_eq!(auth.id, 2);
    assert_eq!(
        auth.text,
        "{\"id\":2,\"method\":\"Fetch.continueWithAuth\",\"params\":{\"authChallengeResponse\":{\"password\":\"p\",\"response\":\"ProvideCredentials\",\"username\":\"u\"},\"requestId\":\"r1\"}}"
    );
    let blocked = handle_request_paused(&mut driver, "r4", "Image", "u", &profile);
    assert_eq!(blocked.id, 3);
    assert_eq!(
        blocked.text,
        "{\"id\":3,\"method\":\"Fetch.failRequest\",\"params\":{\"errorReason\":\"BlockedByClient\",\"requestId\":\"r4\"}}"
    );
    let passed = handle_request_paused(&mut driver, "r5", "Script", "u", &profile);
    assert_eq!(passed.id, 4);
    assert_eq!(passed.text, "{\"id\":4,\"method\":\"Fetch.continueRequest\",\"params\":{\"requestId\":\"r5\"}}");
    let again = handle_request_paused(&mut driver, "r5", "Script", "u", &profile);
    assert_eq!(again.id, 5);
    assert_ne!(again.text, passed.text);
    let auth_again = handle_auth_required(&mut driver, "r1", &profile);
    assert_eq!(auth_again.id, 6);
    assert_ne!(auth_again.text, auth.text);
}

#[test]
fn listener_reads_the_profile_at_each_event() {
    let mut profile = listener_profile(1);
    let mut driver = Driver::new(&profile);
    let frame = "{\"method\":\"Fetch.requestPaused\",\"params\":{\"requestId\":\"a\",\"resourceType\":\"Image\",\"request\":{\"url\":\"https://example.com/i\"}}}";
    match start_cdp_listener(&mut driver, frame, &profile) {
        Reaction::Send(message) => {
            assert_eq!(message.id, 1);
            assert!(matches!(message.command, Command::ContinueRequest { .. }));
        }
        other => panic!("unexpected reaction {:?}", other),
    }
    profile.images = 2;
    match start_cdp_listener(&mut driver, frame, &profile) {
        Reaction::Send(message) => {
            assert_eq!(message.id, 2);
            assert!(matches!(message.command, Command::FailRequest { .. }));
        }
        other => panic!("unexpected reaction {:?}", other),
    }
    profile.proxy.proxy_password = "changed".to_string();
    match answer_event(&mut driver, &Event::AuthRequired { request_id: "z".to_string() }, &profile) {
        Reaction::Send(message) => {
            assert_eq!(message.id, 3);
            match message.command {
                Command::ContinueWithAuth { request_id, username, password } => {
                    assert_eq!(request_id, "z");
                    assert_eq!(username, "u");
                    assert_eq!(password, "changed");
                }
                other => panic!("unexpected command {:?}", other),
            }
        }
        other => panic!("unexpected reaction {:?}", other),
    }
    assert!(matches!(start_cdp_listener(&mut driver, "{\"method\":\"Runtime.evaluate\"}", &profile), Reaction::Unhandled));
    assert!(matches!(start_cdp_listener(&mut driver, "{\"method\":\"Page.loadEventFired\"}", &profile), Reaction::NavigationComplete));
    assert!(matches!(start_cdp_listener(&mut driver, "{\"method\":\"Fetch.authRequired\"}", &profile), Reaction::Unanswerable));
    assert!(matches!(start_cdp_listener(&mut driver, "{", &profile), Reaction::SessionLost));
    assert!(matches!(answer_event(&mut driver, &Event::PageLoaded, &profile), Reaction::NavigationComplete));
    assert_eq!(driver.next_id(), 4);
}

#[test]
fn test_navigation_enables_the_domains_first() {
    let profile = listener_profile(1);
    let mut driver = Driver::new(&profile);
    let messages = test_bot(&mut driver);
    assert_eq!(messages.len(), 3);
    assert_eq!(messages[0].text, "{\"id\":1,\"method\":\"Page.enable\"}");
    assert!(matches!(messages[1].command, Command::FetchEnable));
    assert_eq!(messages[1].id, 2);
    assert_eq!(
        messages[2].text,
        "{\"id\":3,\"method\":\"Page.navigate\",\"params\":{\"url\":\"https://www.google.com/recaptcha/api2/demo\"}}"
    );
    let next = start_cdp(&mut driver).unwrap();
    assert_eq!(next.id, 4);
}
