//! Changes that the widgets of a profile row make to the profile and to its
//! namesake in the list of profiles.

use vstd::prelude::*;
use vstd::string::StringExecFns;
use crate::chromium::chromium::ChromiumProfile;
use crate::text::is_word;

verus! {

/// The first of the debugging ports that are handed out.
pub const BASE_PORT: u16 = 9222;

/// The position of the first profile at or after `from` with the given
/// name; the number of profiles if there is none.
pub open spec fn position_of_name(profiles: Seq<ChromiumProfile>, name: Seq<char>, from: int) -> int
    decreases profiles.len() - from,
{
    if from < 0 || from >= profiles.len() {
        profiles.len() as int
    } else if profiles[from].name@ == name {
        from
    } else {
        position_of_name(profiles, name, from + 1)
    }
}

/// The debugging port that goes with a position in the list, where it can
/// be numbered.
pub open spec fn port_at(position: int) -> Option<u16> {
    if 0 <= position && BASE_PORT + position <= u16::MAX {
        Some((BASE_PORT + position) as u16)
    } else {
        None
    }
}

/// The debugging port that a profile gets when debugging is switched: 0
/// when it is switched off; else the port that goes with the position of
/// the profile's name in the list, or with position 0 for a name that the
/// list does not hold. A port that cannot be numbered leaves the old one.
pub open spec fn switched_port(
    enabled: bool,
    old_port: u16,
    profiles: Seq<ChromiumProfile>,
    name: Seq<char>,
) -> u16 {
    if !enabled {
        0
    } else {
        let at = position_of_name(profiles, name, 0);
        match port_at(if at < profiles.len() { at } else { 0 }) {
            Some(port) => port,
            None => old_port,
        }
    }
}

/// The position of the first profile with the name, if there is one.
pub fn find_by_name(profiles: &Vec<ChromiumProfile>, name: &str) -> (r: Option<usize>)
    ensures
        match r {
            Some(i) => i == position_of_name(profiles@, name@, 0) && i < profiles@.len()
                && profiles@[i as int].name@ == name@,
            None => position_of_name(profiles@, name@, 0) == profiles@.len(),
        },
{
    let mut i: usize = 0;
    while i < profiles.len()
        invariant
            i <= profiles.len(),
            position_of_name(profiles@, name@, 0) == position_of_name(profiles@, name@, i as int),
        decreases profiles.len() - i,
    {
        if is_word(profiles[i].name.as_str(), name) {
            return Some(i);
        }
        i += 1;
    }
    None
}

/// Writes a new WebRTC setting to the profile of the given name, if the
/// setting has changed and the list holds the name; tells whether it did.
pub fn apply_webrtc(
    old_webrtc: &str,
    current_webrtc: &str,
    profile_name: &str,
    profiles: &mut Vec<ChromiumProfile>,
) -> (saved: bool)
    ensures
        saved == (old_webrtc@ != current_webrtc@ && position_of_name(
            old(profiles)@,
            profile_name@,
            0,
        ) < old(profiles)@.len()),
        !saved ==> final(profiles)@ == old(profiles)@,
        saved ==> {
            let at = position_of_name(old(profiles)@, profile_name@, 0);
            &&& final(profiles)@.len() == old(profiles)@.len()
            &&& final(profiles)@[at].webrtc@ == current_webrtc@
            &&& final(profiles)@ == old(profiles)@.update(
                at,
                ChromiumProfile { webrtc: final(profiles)@[at].webrtc, ..old(profiles)@[at] },
            )
        },
{
    if is_word(old_webrtc, current_webrtc) {
        return false;
    }
    match find_by_name(profiles, profile_name) {
        Some(i) => {
            let mut profile = profiles.remove(i);
            profile.webrtc = String::from_str(current_webrtc);
            profiles.insert(i, profile);
            assert(profiles@ =~= old(profiles)@.update(
                i as int,
                ChromiumProfile { webrtc: profiles@[i as int].webrtc, ..old(profiles)@[i as int] },
            ));
            true
        },
        None => false,
    }
}

/// Switches debugging of a profile and of its namesake in the list.
pub fn apply_debugging(
    debug_enabled: bool,
    profile: &mut ChromiumProfile,
    profiles: &mut Vec<ChromiumProfile>,
)
    ensures
        *final(profile) == (ChromiumProfile {
            debugging_port: switched_port(
                debug_enabled,
                old(profile).debugging_port,
                old(profiles)@,
                old(profile).name@,
            ),
            ..*old(profile)
        }),
        ({
            let at = position_of_name(old(profiles)@, old(profile).name@, 0);
            if at < old(profiles)@.len() {
                final(profiles)@ == old(profiles)@.update(
                    at,
                    ChromiumProfile {
                        debugging_port: final(profile).debugging_port,
                        ..old(profiles)@[at]
                    },
                )
            } else {
                final(profiles)@ == old(profiles)@
            }
        }),
{
    let found = find_by_name(profiles, profile.name.as_str());
    if debug_enabled {
        let position: usize = match found {
            Some(i) => i,
            None => 0,
        };
        if position <= (u16::MAX - BASE_PORT) as usize {
            profile.debugging_port = BASE_PORT + position as u16;
        }
    } else {
        profile.debugging_port = 0;
    }
    match found {
        Some(i) => {
            let mut listed = profiles.remove(i);
            listed.debugging_port = profile.debugging_port;
            profiles.insert(i, listed);
            assert(profiles@ =~= old(profiles)@.update(
                i as int,
                ChromiumProfile {
                    debugging_port: profile.debugging_port,
                    ..old(profiles)@[i as int]
                },
            ));
        },
        None => {},
    }
}

/// Switches headless mode of a profile and of its namesake in the list.
pub fn apply_headless(
    headless_enabled: bool,
    profile: &mut ChromiumProfile,
    profiles: &mut Vec<ChromiumProfile>,
)
    ensures
        *final(profile) == (ChromiumProfile { headless: headless_enabled, ..*old(profile) }),
        ({
            let at = position_of_name(old(profiles)@, old(profile).name@, 0);
            if at < old(profiles)@.len() {
                final(profiles)@ == old(profiles)@.update(
                    at,
                    ChromiumProfile { headless: headless_enabled, ..old(profiles)@[at] },
                )
            } else {
                final(profiles)@ == old(profiles)@
            }
        }),
{
    profile.headless = headless_enabled;
    match find_by_name(profiles, profile.name.as_str()) {
        Some(i) => {
            let mut listed = profiles.remove(i);
            listed.headless = headless_enabled;
            profiles.insert(i, listed);
            assert(profiles@ =~= old(profiles)@.update(
                i as int,
                ChromiumProfile { headless: headless_enabled, ..old(profiles)@[i as int] },
            ));
        },
        None => {},
    }
}

/// Writes an image setting to the profile of the given name; tells whether
/// the list holds the name.
pub fn set_images(images: u8, profile_name: &str, profiles: &mut Vec<ChromiumProfile>) -> (saved:
    bool)
    ensures
        saved == (position_of_name(old(profiles)@, profile_name@, 0) < old(profiles)@.len()),
        !saved ==> final(profiles)@ == old(profiles)@,
        saved ==> final(profiles)@ == old(profiles)@.update(
            position_of_name(old(profiles)@, profile_name@, 0),
            ChromiumProfile {
                images,
                ..old(profiles)@[position_of_name(old(profiles)@, profile_name@, 0)]
            },
        ),
{
    match find_by_name(profiles, profile_name) {
        Some(i) => {
            let mut listed = profiles.remove(i);
            listed.images = images;
            profiles.insert(i, listed);
            assert(profiles@ =~= old(profiles)@.update(
                i as int,
                ChromiumProfile { images, ..old(profiles)@[i as int] },
            ));
            true
        },
        None => false,
    }
}

/// Writes the user's flags to the profile of the given name; tells whether
/// the list holds the name.
pub fn set_custom_flags(flags: &str, profile_name: &str, profiles: &mut Vec<ChromiumProfile>) -> (saved:
    bool)
    ensures
        saved == (position_of_name(old(profiles)@, profile_name@, 0) < old(profiles)@.len()),
        !saved ==> final(profiles)@ == old(profiles)@,
        saved ==> {
            let at = position_of_name(old(profiles)@, profile_name@, 0);
            &&& final(profiles)@.len() == old(profiles)@.len()
            &&& final(profiles)@[at].custom_flags@ == flags@
            &&& final(profiles)@ == old(profiles)@.update(
                at,
                ChromiumProfile {
                    custom_flags: final(profiles)@[at].custom_flags,
                    ..old(profiles)@[at]
                },
            )
        },
{
    match find_by_name(profiles, profile_name) {
        Some(i) => {
            let mut listed = profiles.remove(i);
            listed.custom_flags = String::from_str(flags);
            profiles.insert(i, listed);
            assert(profiles@ =~= old(profiles)@.update(
                i as int,
                ChromiumProfile {
                    custom_flags: profiles@[i as int].custom_flags,
                    ..old(profiles)@[i as int]
                },
            ));
            true
        },
        None => false,
    }
}

/// What the image selector shows for a setting.
pub fn images_label(images: u8) -> (r: &'static str)
    ensures
        r@ == if images == 0 {
            "Block all"@
        } else if images == 1 {
            "Allow all"@
        } else if images == 2 {
            "Allow only from CAPTCHA Providers"@
        } else {
            "Unknown"@
        },
{
    if images == 0 {
        "Block all"
    } else if images == 1 {
        "Allow all"
    } else if images == 2 {
        "Allow only from CAPTCHA Providers"
    } else {
        "Unknown"
    }
}

/// Takes the profiles of a name out of the list of open profiles.
pub fn close_profile(open_profiles: &mut Vec<ChromiumProfile>, name: &str)
    ensures
        final(open_profiles)@ == old(open_profiles)@.filter(
            |p: ChromiumProfile| p.name@ != name@,
        ),
{
    let mut kept: Vec<ChromiumProfile> = Vec::new();
    let ghost all = open_profiles@;
    let ghost keep = |p: ChromiumProfile| p.name@ != name@;
    proof {
        assert(all.take(0) =~= Seq::<ChromiumProfile>::empty());
        assert(all.take(0).filter(keep) =~= Seq::<ChromiumProfile>::empty()) by {
            reveal(Seq::filter);
        }
    }
    let mut i: usize = 0;
    let n = open_profiles.len();
    let mut rest: Vec<ChromiumProfile> = Vec::new();
    rest.append(open_profiles);
    assert(rest@ == all);
    while i < n
        invariant
            i <= n,
            n == all.len(),
            rest@.len() + i == n,
            rest@ == all.skip(i as int),
            kept@ == all.take(i as int).filter(keep),
            keep == |p: ChromiumProfile| p.name@ != name@,
        decreases n - i,
    {
        let profile = rest.remove(0);
        proof {
            assert(profile == all[i as int]);
            assert(rest@ =~= all.skip(i + 1));
            assert(all.take(i + 1).drop_last() =~= all.take(i as int));
            assert(all.take(i + 1).last() == all[i as int]);
            reveal(Seq::filter);
        }
        if !is_word(profile.name.as_str(), name) {
            kept.push(profile);
        }
        i += 1;
    }
    assert(all.take(n as int) =~= all);
    *open_profiles = kept;
}

} // verus!
