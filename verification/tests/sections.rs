use potabrowser::chromium::chromium::ChromiumProfile;
use potabrowser::gui::new_profile_section::{
    add_custom_browser, custom_browser, new_profile, uses_custom_path, SectionError,
};
use potabrowser::gui::proxy_manager_section::{
    delete_saved, fingerprint_list, is_rising_within, saved_proxy, test_url,
};
use potabrowser::gui::render_util::{
    apply_debugging, apply_headless, apply_webrtc, close_profile, find_by_name, images_label,
    set_custom_flags, set_images,
};
use potabrowser::proxy_manager::ProxyConfig;
use potabrowser::text::is_blank;

fn profiles(names: &[&str]) -> Vec<ChromiumProfile> {
    names.iter().map(|n| ChromiumProfile::new(n, "/p")).collect()
}

#[test]
fn profile_is_found_by_name() {
    let list = profiles(&["a", "b", "a"]);
    assert_eq!(find_by_name(&list, "a"), Some(0));
    assert_eq!(find_by_name(&list, "b"), Some(1));
    assert_eq!(find_by_name(&list, "c"), None);
    assert_eq!(find_by_name(&Vec::new(), "a"), None);
}

#[test]
fn webrtc_setting_is_written_when_it_changes() {
    let mut list = profiles(&["a", "b"]);
    assert!(!apply_webrtc("default", "default", "b", &mut list));
    assert_eq!(list[1].webrtc, "");
    assert!(apply_webrtc("default", "block", "b", &mut list));
    assert_eq!(list[1].webrtc, "block");
    assert_eq!(list[0].webrtc, "");
    assert_eq!(list[1].name, "b");
    assert!(!apply_webrtc("default", "fake", "c", &mut list));
    assert_eq!(list.len(), 2);
}

#[test]
fn debugging_port_goes_by_position() {
    let mut list = profiles(&["a", "b", "c"]);
    let mut edited = ChromiumProfile::new("c", "/p");
    apply_debugging(true, &mut edited, &mut list);
    assert_eq!(edited.debugging_port, 9224);
    assert_eq!(list[2].debugging_port, 9224);
    assert_eq!(list[0].debugging_port, 0);
    apply_debugging(false, &mut edited, &mut list);
    assert_eq!(edited.debugging_port, 0);
    assert_eq!(list[2].debugging_port, 0);
    let mut stranger = ChromiumProfile::new("z", "/p");
    apply_debugging(true, &mut stranger, &mut list);
    assert_eq!(stranger.debugging_port, 9222);
    assert_eq!(list.iter().map(|p| p.debugging_port).collect::<Vec<u16>>(), vec![0, 0, 0]);
}

#[test]
fn headless_mode_is_written_to_the_namesake() {
    let mut list = profiles(&["a", "b"]);
    let mut edited = ChromiumProfile::new("a", "/p");
    apply_headless(true, &mut edited, &mut list);
    assert!(edited.headless);
    assert!(list[0].headless);
    assert!(!list[1].headless);
    apply_headless(false, &mut edited, &mut list);
    assert!(!list[0].headless);
}

#[test]
fn images_and_flags_are_written_by_name() {
    let mut list = profiles(&["a", "b"]);
    assert!(set_images(2, "b", &mut list));
    assert_eq!(list[1].images, 2);
    assert_eq!(list[0].images, 1);
    assert!(!set_images(0, "c", &mut list));
    assert!(set_custom_flags("--mute-audio", "a", &mut list));
    assert_eq!(list[0].custom_flags, "--mute-audio");
    assert!(!set_custom_flags("--x", "c", &mut list));
    assert_eq!(images_label(0), "Block all");
    assert_eq!(images_label(1), "Allow all");
    assert_eq!(images_label(2), "Allow only from CAPTCHA Providers");
    assert_eq!(images_label(3), "Unknown");
}

#[test]
fn closed_profiles_leave_the_open_list() {
    let mut open = profiles(&["a", "b", "a", "c"]);
    close_profile(&mut open, "a");
    assert_eq!(open.iter().map(|p| p.name.clone()).collect::<Vec<String>>(), vec!["b", "c"]);
    close_profile(&mut open, "z");
    assert_eq!(open.len(), 2);
    close_profile(&mut open, "b");
    close_profile(&mut open, "c");
    assert_eq!(open.len(), 0);
}

#[test]
fn custom_browsers_are_kept_once_per_path() {
    let mut list = Vec::new();
    assert!(add_custom_browser(&mut list, custom_browser("Brave", "/opt/brave")));
    assert!(add_custom_browser(&mut list, custom_browser("  ", "/opt/other")));
    assert!(!add_custom_browser(&mut list, custom_browser("Again", "/opt/brave")));
    assert_eq!(list.len(), 2);
    assert_eq!(list[0].name, "Brave");
    assert_eq!(list[1].name, "Custom Browser");
    assert_eq!(list[1].path, "/opt/other");
    assert!(is_blank(""));
    assert!(is_blank(" \t\n"));
    assert!(!is_blank(" a "));
}

#[test]
fn profile_form_is_validated() {
    assert_eq!(new_profile("", "work", "/p/work", 1).unwrap_err(), SectionError::NoBrowser);
    assert_eq!(new_profile("", " ", "/p/work", 1).unwrap_err(), SectionError::NoBrowser);
    assert_eq!(new_profile("/bin/b", " \t", "/p/work", 1).unwrap_err(), SectionError::NoName);
    let profile = new_profile("/bin/b", "work", "/p/work", 2).unwrap();
    assert_eq!(profile.name, "work");
    assert_eq!(profile.browser_path, "/bin/b");
    assert_eq!(profile.path, "/p/work");
    assert!(profile.headless);
    assert_eq!(profile.images, 2);
    assert_eq!(profile.debugging_port, 0);
    assert!(uses_custom_path(true, "/data"));
    assert!(!uses_custom_path(true, ""));
    assert!(!uses_custom_path(false, "/data"));
}

fn proxy(name: &str) -> ProxyConfig {
    let mut p = ProxyConfig::new();
    p.proxy_name = name.to_string();
    p.proxy_type = "http".to_string();
    p.proxy_host = "h".to_string();
    p.proxy_port = "8".to_string();
    p
}

#[test]
fn proxy_form() {
    let mut form = proxy("exit");
    assert_eq!(test_url(&form), "http://h:8");
    form.proxy_username = "u".to_string();
    form.proxy_password = "p".to_string();
    assert_eq!(test_url(&form), "http://u:p@h:8");
    form.last_ip = "1.1.1.1".to_string();
    form.country = "IT".to_string();
    form.used_ips.push("1.1.1.1".to_string());
    let saved = saved_proxy(&form);
    assert_eq!(saved.proxy_name, "exit");
    assert_eq!(saved.proxy_username, "u");
    assert_eq!(saved.proxy_password, "p");
    assert_eq!(saved.last_ip, "");
    assert_eq!(saved.country, "");
    assert_eq!(saved.used_ips.len(), 0);
    let copy = form.clone();
    assert_eq!(copy.used_ips, vec!["1.1.1.1"]);
    assert_eq!(copy.country, "IT");
}

#[test]
fn saved_proxies_are_deleted_by_position() {
    let mut list = vec![proxy("a"), proxy("b"), proxy("c"), proxy("d")];
    delete_saved(&mut list, &vec![0, 2]);
    assert_eq!(list.iter().map(|p| p.proxy_name.clone()).collect::<Vec<String>>(), vec!["b", "d"]);
    assert!(is_rising_within(&vec![0, 2], 4));
    assert!(is_rising_within(&Vec::new(), 0));
    assert!(!is_rising_within(&vec![0, 2], 2));
    assert!(!is_rising_within(&vec![2, 0], 4));
    assert!(!is_rising_within(&vec![1, 1], 4));
    assert!(!is_rising_within(&vec![0, 3, 2], 4));
    delete_saved(&mut list, &Vec::new());
    assert_eq!(list.len(), 2);
    delete_saved(&mut list, &vec![1]);
    assert_eq!(list.len(), 1);
    assert_eq!(list[0].proxy_name, "b");
}

#[test]
fn fingerprint_lists() {
    let catalogue = vec![vec!["Windows 10".to_string(), "Windows 11".to_string()], vec!["macOS 14".to_string()]];
    assert_eq!(fingerprint_list(&catalogue, 0).unwrap(), vec!["Windows 10", "Windows 11"]);
    assert_eq!(fingerprint_list(&catalogue, 1).unwrap(), vec!["macOS 14"]);
    assert!(fingerprint_list(&catalogue, 2).is_none());
}
