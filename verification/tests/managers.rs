use potabrowser::chromium::chromium_manager::{ChromiumManager, ChromiumProfile, ManagerError};
use potabrowser::proxy::proxy_manager::{
    get_language_settings, json_part, CheckError, CheckPlan, ProxyConfig, ProxyManager,
};

fn text(s: &str) -> String {
    s.to_string()
}

fn three_proxies() -> ProxyManager {
    let mut manager = ProxyManager::new();
    manager.add_new_proxy(text("a"), text("http"), text("h1"), text("1"), text("u1"), text("p1"));
    manager.add_new_proxy(text("b"), text("socks5"), text("h2"), text("2"), text("u2"), text("p2"));
    manager.add_new_proxy(text("c"), text("http"), text("h3"), text("3"), text("u3"), text("p3"));
    manager
}

#[test]
fn proxies_are_numbered_from_one() {
    let manager = three_proxies();
    assert_eq!(manager.proxies.len(), 3);
    assert_eq!(manager.proxies[0].id, 1);
    assert_eq!(manager.proxies[1].id, 2);
    assert_eq!(manager.proxies[2].id, 3);
    assert_eq!(manager.proxies[1].name, "b");
    assert_eq!(manager.proxies[1].protocol, "socks5");
    assert_eq!(manager.proxies[1].host, "h2");
    assert_eq!(manager.proxies[1].port, "2");
    assert_eq!(manager.proxies[1].username, "u2");
    assert_eq!(manager.proxies[1].password, "p2");
    assert_eq!(manager.proxies[1].country, "");
    assert_eq!(manager.proxies[1].ip, "");
    assert!(manager.has_room());
}

#[test]
fn next_proxy_id_follows_the_largest() {
    let mut manager = three_proxies();
    assert!(manager.remove_proxy(1));
    manager.add_new_proxy(text("d"), text(""), text(""), text(""), text(""), text(""));
    assert_eq!(manager.proxies.iter().map(|p| p.id).collect::<Vec<u32>>(), vec![1, 3, 4]);
    assert!(manager.remove_proxy(2));
    assert!(manager.remove_proxy(1));
    manager.add_new_proxy(text("e"), text(""), text(""), text(""), text(""), text(""));
    assert_eq!(manager.proxies.iter().map(|p| p.id).collect::<Vec<u32>>(), vec![1, 2]);
    assert!(!manager.remove_proxy(2));
    assert_eq!(manager.proxies.len(), 2);
    assert_eq!(ProxyConfig::get_next_id(Vec::new()), 1);
    let fresh = ProxyConfig::new_proxy(manager.proxies, text("n"), text("http"), text("h"), text("1"), text("u"), text("p"));
    assert_eq!(fresh.id, 3);
    assert_eq!(fresh.name, "n");
}

#[test]
fn full_proxy_table_has_no_room() {
    let mut manager = ProxyManager::new();
    let mut last = ProxyConfig::default();
    last.id = u32::MAX;
    manager.proxies.push(last);
    assert!(!manager.has_room());
}

#[test]
fn proxy_is_updated_by_id() {
    let mut manager = three_proxies();
    let mut changed = manager.proxies[1].clone();
    changed.host = text("elsewhere");
    assert!(manager.update(2, changed));
    assert_eq!(manager.proxies[1].host, "elsewhere");
    assert_eq!(manager.proxies[0].host, "h1");
    assert_eq!(manager.proxies[2].host, "h3");
    let stray = ProxyConfig::default();
    assert!(!manager.update(9, stray));
    assert_eq!(manager.proxies.len(), 3);
    assert_eq!(manager.proxies[1].host, "elsewhere");
}

#[test]
fn empty_proxy_record() {
    let proxy = ProxyConfig::default();
    assert_eq!(proxy.id, 0);
    assert_eq!(proxy.name, "");
    assert_eq!(proxy.protocol, "");
    assert_eq!(proxy.lang, "");
    assert!(proxy.same_as(&ProxyConfig::default()));
    let mut other = ProxyConfig::default();
    other.accept_lang = text("x");
    assert!(!proxy.same_as(&other));
}

#[test]
fn language_settings_by_country() {
    let us = get_language_settings("US").unwrap();
    assert_eq!(us.lang, "en-US");
    assert_eq!(us.accept_language, "en-US,en;q=0.9");
    let it = get_language_settings("IT").unwrap();
    assert_eq!(it.lang, "it-IT");
    assert_eq!(it.accept_language, "it-IT,it;q=0.9");
    let fr = get_language_settings("FR").unwrap();
    assert_eq!(fr.lang, "fr-FR");
    assert_eq!(fr.accept_language, "fr-FR,fr;q=0.9");
    assert!(get_language_settings("DE").is_none());
    assert!(get_language_settings("us").is_none());
    assert!(get_language_settings("").is_none());
}

#[test]
fn check_plans() {
    let manager = three_proxies();
    match manager.check_plan(&manager.proxies[0]).unwrap() {
        CheckPlan::Http { proxy_url } => assert_eq!(proxy_url, "http://u1:p1@h1:1"),
        other => panic!("unexpected plan {:?}", other),
    }
    match manager.check_plan(&manager.proxies[1]).unwrap() {
        CheckPlan::Socks5 { proxy_host, proxy_port, username, password } => {
            assert_eq!(proxy_host, "h2");
            assert_eq!(proxy_port, 2);
            assert_eq!(username, "u2");
            assert_eq!(password, "p2");
        }
        other => panic!("unexpected plan {:?}", other),
    }
    let mut odd = ProxyConfig::default();
    odd.protocol = text("socks5");
    odd.port = text("none");
    match manager.check_plan(&odd).unwrap() {
        CheckPlan::Socks5 { proxy_port, .. } => assert_eq!(proxy_port, 1080),
        other => panic!("unexpected plan {:?}", other),
    }
    odd.protocol = text("gopher");
    let error = manager.check_plan(&odd).unwrap_err();
    assert_eq!(error, CheckError::UnsupportedProtocol);
    assert_eq!(error.message(&odd), "Unsupported proxy protocol: gopher");
}

#[test]
fn check_answer_is_recorded() {
    let manager = three_proxies();
    let response = b"HTTP/1.1 200 OK\r\nContent-Type: application/json\r\n\r\n{\"ip\":\"203.0.113.9\",\"country\":\"IT\",\"city\":\"Roma\"}";
    let checked = manager.check_proxy(manager.proxies[1].clone(), response).unwrap();
    assert_eq!(checked.ip, "203.0.113.9");
    assert_eq!(checked.country, "IT");
    assert_eq!(checked.lang, "it-IT");
    assert_eq!(checked.accept_lang, "it-IT,it;q=0.9");
    assert_eq!(checked.id, 2);
    assert_eq!(checked.name, "b");
    assert_eq!(checked.password, "p2");

    let mut known = manager.proxies[0].clone();
    known.lang = text("fr-FR");
    known.accept_lang = text("fr-FR,fr;q=0.9");
    let checked = known.record_answer("{\"ip\":\"198.51.100.1\",\"country\":\"DE\"}").unwrap();
    assert_eq!(checked.country, "DE");
    assert_eq!(checked.lang, "fr-FR");
    assert_eq!(checked.accept_lang, "fr-FR,fr;q=0.9");

    let checked = manager.proxies[0].clone().record_answer("{}").unwrap();
    assert_eq!(checked.ip, "Unknown IP");
    assert_eq!(checked.country, "Unknown Country");
    assert_eq!(checked.lang, "");

    let checked = manager.proxies[0].clone().with_check(Some(text("1.2.3.4")), None);
    assert_eq!(checked.ip, "1.2.3.4");
    assert_eq!(checked.country, "Unknown Country");

    let error = manager.check_proxy(manager.proxies[1].clone(), b"HTTP/1.1 502 Bad Gateway\r\n\r\n").unwrap_err();
    assert_eq!(error, CheckError::Unparseable);
    assert_eq!(error.message(&manager.proxies[1]), "Failed to parse JSON from SOCKS5 response");
    assert_eq!(manager.proxies[0].clone().record_answer("{\"ip\":").unwrap_err(), CheckError::Unparseable);
}

#[test]
fn json_part_starts_at_the_first_brace() {
    assert_eq!(json_part("abc{\"a\":{}}"), "{\"a\":{}}");
    assert_eq!(json_part("{}"), "{}");
    assert_eq!(json_part("no braces"), "no braces");
    assert_eq!(json_part(""), "");
    assert_eq!(json_part("é{é"), "{é");
}

fn three_profiles() -> ChromiumManager {
    let mut manager = ChromiumManager::new();
    manager.add_new_profile(text("one"), text(""), text("/usr/bin/chromium"));
    manager.add_new_profile(text("two"), text("/data/two"), text("/usr/bin/chromium"));
    manager.add_new_profile(text("three"), text(""), text("/opt/brave"));
    manager
}

#[test]
fn profiles_are_numbered_from_one() {
    let manager = three_profiles();
    let profiles = manager.get_profiles();
    assert_eq!(profiles.len(), 3);
    assert_eq!(profiles[0].id, 1);
    assert_eq!(profiles[0].name, "one");
    assert_eq!(profiles[0].profile_path, "chromium_profiles/one");
    assert_eq!(profiles[0].browser_path, "/usr/bin/chromium");
    assert_eq!(profiles[1].id, 2);
    assert_eq!(profiles[1].profile_path, "/data/two");
    assert_eq!(profiles[2].id, 3);
    assert_eq!(profiles[2].webrtc, "default");
    assert_eq!(profiles[2].debugging_port, 0);
    assert!(!profiles[2].headless);
    assert!(!profiles[2].is_running);
    assert_eq!(profiles[2].proxy_server_port, 0);
    assert_eq!(profiles[2].proxy.name, "");
    assert!(manager.has_room());
}

#[test]
fn empty_profile() {
    let profile = ChromiumProfile::default();
    assert_eq!(profile.id, 0);
    assert_eq!(profile.name, "");
    assert_eq!(profile.profile_path, "");
    assert_eq!(profile.browser_path, "");
    assert_eq!(profile.webrtc, "default");
    assert!(!profile.has_proxy());
    let made = ChromiumProfile::new_profile(Vec::new(), text("p"), text(""), text("b"));
    assert_eq!(made.id, 1);
    assert_eq!(made.profile_path, "chromium_profiles/p");
    assert_eq!(ChromiumProfile::get_next_id(vec![made]), 2);
    assert_eq!(ChromiumProfile::default_profile_path(text("x y")), "chromium_profiles/x y");
}

#[test]
fn profile_is_updated_by_id() {
    let mut manager = three_profiles();
    let mut changed = manager.profiles[2].clone();
    changed.headless = true;
    assert_eq!(manager.update(3, changed), Ok(()));
    assert!(manager.profiles[2].headless);
    assert!(!manager.profiles[0].headless);
    let error = manager.update(7, ChromiumProfile::default()).unwrap_err();
    assert_eq!(error, ManagerError::ProfileNotFound);
    assert_eq!(error.message(), "Profile not found");
    assert_eq!(manager.profiles.len(), 3);
}

#[test]
fn profile_is_removed_by_position() {
    let mut manager = three_profiles();
    manager.remove(5);
    assert_eq!(manager.profiles.len(), 3);
    manager.remove(0);
    assert_eq!(manager.profiles.iter().map(|p| p.id).collect::<Vec<u32>>(), vec![2, 3]);
    manager.add_new_profile(text("four"), text(""), text("b"));
    assert_eq!(manager.profiles[2].id, 4);
}

#[test]
fn proxy_is_set_by_profile_id() {
    let mut manager = three_profiles();
    let mut proxy = ProxyConfig::default();
    proxy.name = text("exit");
    proxy.host = text("h");
    assert_eq!(manager.set_proxy(2, proxy.clone()), Ok(()));
    assert_eq!(manager.profiles[1].proxy.name, "exit");
    assert_eq!(manager.profiles[1].name, "two");
    assert_eq!(manager.profiles[1].profile_path, "/data/two");
    assert_eq!(manager.profiles[0].proxy.name, "");
    assert_eq!(manager.set_proxy(0, proxy), Err(ManagerError::ProfileNotFound));
}

#[test]
fn launch_without_proxy() {
    let mut manager = three_profiles();
    let profile = manager.profiles[0].clone();
    let launch = manager.start(profile, 40000);
    assert!(!launch.forward);
    assert_eq!(launch.program, "/usr/bin/chromium");
    assert_eq!(launch.profile.proxy_server_port, 0);
    assert_eq!(
        launch.arguments,
        vec![
            "--user-data-dir=chromium_profiles/one",
            "--no-first-run",
            "--no-default-browser-check",
            "--hide-crash-restore-bubble",
            "--disable-features=Translate,LensStandalone,LensOverlay,LensOverlayTranslateButton,LensOverlayContextualSearchBox,LensOverlayLatencyOptimizations,LensOverlayImageContextMenuActions,LensOverlayTranslateLanguages,LensOverlaySidePanelOpenInNewTab",
            "--lang=",
            "--accept-lang=",
        ]
    );
    assert!(manager.is_running("one"));
    assert!(!manager.is_running("two"));
}

#[test]
fn launch_through_the_forwarding_proxy() {
    let mut manager = three_profiles();
    let mut profile = manager.profiles[1].clone();
    profile.proxy.name = text("exit");
    profile.proxy.lang = text("it-IT");
    profile.proxy.accept_lang = text("it-IT,it;q=0.9");
    profile.headless = true;
    profile.webrtc = text("disabled");
    let launch = manager.start(profile, 40123);
    assert!(launch.forward);
    assert_eq!(launch.profile.proxy_server_port, 40123);
    assert_eq!(
        launch.arguments[5..].to_vec(),
        vec![
            "--lang=it-IT",
            "--accept-lang=it-IT,it;q=0.9",
            "--proxy-server=http://127.0.0.1:40123",
            "--headless",
            "--webrtc-ip-handling-policy=disable_non_proxied_udp",
            "--force-webrtc-ip-handling-policy",
        ]
    );
    assert_eq!(manager.chromium_command_line(&launch.profile), launch.arguments);
}

#[test]
fn running_profiles_are_tracked_by_name() {
    let mut manager = three_profiles();
    let one = manager.profiles[0].clone();
    let two = manager.profiles[1].clone();
    manager.start(one.clone(), 1);
    manager.start(two, 2);
    manager.start(one, 3);
    assert_eq!(manager.running, vec!["one", "two"]);
    assert!(!manager.stop("three"));
    assert!(manager.stop("one"));
    assert!(!manager.stop("one"));
    assert!(!manager.is_running("one"));
    assert!(manager.is_running("two"));
    assert_eq!(manager.profiles.len(), 3);
}
