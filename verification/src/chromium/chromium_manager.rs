//! The table of browser profiles and the launches that are made from it.

use vstd::prelude::*;
use vstd::string::StringExecFns;
use crate::chromium::chromium::{
    disabled_features, extra_arguments, headless_arguments, push_headless, push_webrtc,
    webrtc_arguments,
};
use crate::proxy::proxy_manager::ProxyConfig;
use crate::text::{append_decimal, decimal_text, holds, joined, push_text, texts};

verus! {

/// One browser profile of the table.
#[derive(Debug)]
pub struct ChromiumProfile {
    /// The profile's number in the table; 0 for a profile that is in none.
    pub id: u32,
    pub name: String,
    /// The profile's user-data directory.
    pub profile_path: String,
    pub browser_path: String,
    /// The remote-debugging port; 0 where the profile is not debugged.
    pub debugging_port: u32,
    pub headless: bool,
    /// `default`, `fake` or `disabled`.
    pub webrtc: String,
    /// The upstream proxy; a proxy without a name is none.
    pub proxy: ProxyConfig,
    /// The port of the local forwarding proxy, once the profile runs.
    pub proxy_server_port: u16,
    pub is_running: bool,
}

/// The table of profiles, and the names of those that run.
#[derive(Debug)]
pub struct ChromiumManager {
    pub profiles: Vec<ChromiumProfile>,
    pub running: Vec<String>,
}

/// Why the table could not do what was asked.
#[derive(Clone, Copy, Debug, PartialEq, Eq, Structural)]
pub enum ManagerError {
    /// No profile has the id.
    ProfileNotFound,
}

/// A browser to start: the program, its arguments and the profile as it
/// runs.
#[derive(Debug)]
pub struct Launch {
    pub program: String,
    pub arguments: Vec<String>,
    /// The profile, with the port of its forwarding proxy.
    pub profile: ChromiumProfile,
    /// Whether a forwarding proxy is to listen on `profile.proxy_server_port`
    /// before the browser starts.
    pub forward: bool,
}

/// The directory under which profiles are kept by default.
pub open spec fn default_path_text(name: Seq<char>) -> Seq<char> {
    "chromium_profiles/"@ + name
}

/// The largest id among the profiles, 0 if there is none.
pub open spec fn max_profile_id(profiles: Seq<ChromiumProfile>) -> nat
    decreases profiles.len(),
{
    if profiles.len() == 0 {
        0
    } else {
        let rest = max_profile_id(profiles.drop_last());
        if profiles.last().id > rest {
            profiles.last().id as nat
        } else {
            rest
        }
    }
}

/// The position of the first profile at or after `from` with the given id;
/// the number of profiles if there is none.
pub open spec fn position_of_profile(profiles: Seq<ChromiumProfile>, id: u32, from: int) -> int
    decreases profiles.len() - from,
{
    if from < 0 || from >= profiles.len() {
        profiles.len() as int
    } else if profiles[from].id == id {
        from
    } else {
        position_of_profile(profiles, id, from + 1)
    }
}

/// The profile has a proxy: its proxy has a name.
pub open spec fn proxied(profile: ChromiumProfile) -> bool {
    profile.proxy.name@.len() != 0
}

/// The switch that points the browser at the local forwarding proxy.
pub open spec fn forward_arguments(profile: ChromiumProfile) -> Seq<Seq<char>> {
    if proxied(profile) {
        seq!["--proxy-server=http://127.0.0.1:"@ + decimal_text(profile.proxy_server_port as nat)]
    } else {
        seq![]
    }
}

/// The arguments of a launch, in their order.
pub open spec fn command_line(profile: ChromiumProfile) -> Seq<Seq<char>> {
    extra_arguments(profile.profile_path@) + seq![
        "--lang="@ + profile.proxy.lang@,
        "--accept-lang="@ + profile.proxy.accept_lang@,
    ] + forward_arguments(profile) + headless_arguments(profile.headless) + webrtc_arguments(
        profile.webrtc@,
        "disabled"@,
    )
}

impl Clone for ChromiumProfile {
    fn clone(&self) -> (r: Self)
        ensures
            r == *self,
    {
        ChromiumProfile {
            id: self.id,
            name: self.name.clone(),
            profile_path: self.profile_path.clone(),
            browser_path: self.browser_path.clone(),
            debugging_port: self.debugging_port,
            headless: self.headless,
            webrtc: self.webrtc.clone(),
            proxy: self.proxy.clone(),
            proxy_server_port: self.proxy_server_port,
            is_running: self.is_running,
        }
    }
}

impl ManagerError {
    /// The error in words.
    pub fn message(&self) -> (r: &'static str)
        ensures
            r@ == "Profile not found"@,
    {
        "Profile not found"
    }
}

/// The largest id in a table.
pub fn largest_profile_id(profiles: &Vec<ChromiumProfile>) -> (id: u32)
    ensures
        id == max_profile_id(profiles@),
{
    let mut largest: u32 = 0;
    let mut i: usize = 0;
    while i < profiles.len()
        invariant
            i <= profiles.len(),
            largest == max_profile_id(profiles@.take(i as int)),
        decreases profiles.len() - i,
    {
        assert(profiles@.take(i + 1).drop_last() =~= profiles@.take(i as int));
        if profiles[i].id > largest {
            largest = profiles[i].id;
        }
        i += 1;
    }
    assert(profiles@.take(i as int) =~= profiles@);
    largest
}

/// The position of the first profile with the given id, if there is one.
pub fn find_profile(profiles: &Vec<ChromiumProfile>, id: u32) -> (r: Option<usize>)
    ensures
        match r {
            Some(i) => i == position_of_profile(profiles@, id, 0) && i < profiles@.len()
                && profiles@[i as int].id == id,
            None => position_of_profile(profiles@, id, 0) == profiles@.len(),
        },
{
    let mut i: usize = 0;
    while i < profiles.len()
        invariant
            i <= profiles.len(),
            position_of_profile(profiles@, id, 0) == position_of_profile(profiles@, id, i as int),
        decreases profiles.len() - i,
    {
        if profiles[i].id == id {
            return Some(i);
        }
        i += 1;
    }
    None
}

impl ChromiumProfile {
    /// A profile that holds nothing yet: no name, no paths, not debugged,
    /// not headless, WebRTC as the browser has it, no proxy.
    pub open spec fn blank(&self) -> bool {
        &&& self.id == 0
        &&& self.name@.len() == 0
        &&& self.profile_path@.len() == 0
        &&& self.browser_path@.len() == 0
        &&& self.fresh()
    }

    /// The settings of a profile that was never changed.
    pub open spec fn fresh(&self) -> bool {
        &&& self.debugging_port == 0
        &&& !self.headless
        &&& self.webrtc@ == "default"@
        &&& self.proxy.blank()
        &&& self.proxy_server_port == 0
        &&& !self.is_running
    }

    /// An empty profile.
    pub fn default() -> (r: Self)
        ensures
            r.blank(),
    {
        ChromiumProfile {
            id: 0,
            name: String::new(),
            profile_path: String::new(),
            browser_path: String::new(),
            debugging_port: 0,
            headless: false,
            webrtc: String::from_str("default"),
            proxy: ProxyConfig::default(),
            proxy_server_port: 0,
            is_running: false,
        }
    }

    /// A new profile for the table `profiles`: its id is one above the
    /// largest in the table. Without a path of its own the profile lives
    /// under the default directory, by its name.
    pub fn new_profile(
        profiles: Vec<ChromiumProfile>,
        name: String,
        profile_path: String,
        browser_path: String,
    ) -> (r: Self)
        requires
            max_profile_id(profiles@) < u32::MAX,
        ensures
            r.id == max_profile_id(profiles@) + 1,
            r.name@ == name@,
            r.profile_path@ == if profile_path@.len() == 0 {
                default_path_text(name@)
            } else {
                profile_path@
            },
            r.browser_path == browser_path,
            r.fresh(),
    {
        let id = Self::get_next_id(profiles);
        let profile_path = if profile_path.as_str().is_empty() {
            Self::default_profile_path(name.clone())
        } else {
            profile_path
        };
        ChromiumProfile {
            id,
            name,
            profile_path,
            browser_path,
            debugging_port: 0,
            headless: false,
            webrtc: String::from_str("default"),
            proxy: ProxyConfig::default(),
            proxy_server_port: 0,
            is_running: false,
        }
    }

    /// The id for the next profile of a table.
    pub fn get_next_id(profiles: Vec<ChromiumProfile>) -> (id: u32)
        requires
            max_profile_id(profiles@) < u32::MAX,
        ensures
            id == max_profile_id(profiles@) + 1,
    {
        largest_profile_id(&profiles) + 1
    }

    /// The default user-data directory of a profile, relative to the
    /// directory that the program runs in.
    pub fn default_profile_path(profile_name: String) -> (r: String)
        ensures
            r@ == default_path_text(profile_name@),
    {
        joined("chromium_profiles/", profile_name.as_str())
    }

    /// Whether the profile has a proxy.
    pub fn has_proxy(&self) -> (r: bool)
        ensures
            r == proxied(*self),
    {
        !self.proxy.name.as_str().is_empty()
    }
}

impl ChromiumManager {
    /// A table without profiles.
    pub fn new() -> (r: Self)
        ensures
            r.profiles@.len() == 0,
            r.running@.len() == 0,
    {
        ChromiumManager { profiles: Vec::new(), running: Vec::new() }
    }

    /// Whether a profile can still be added: the ids have not run out.
    pub fn has_room(&self) -> (r: bool)
        ensures
            r == (max_profile_id(self.profiles@) < u32::MAX),
    {
        largest_profile_id(&self.profiles) < u32::MAX
    }

    /// Appends a new profile with the next id.
    pub fn add_new_profile(&mut self, name: String, profile_path: String, browser_path: String)
        requires
            max_profile_id(old(self).profiles@) < u32::MAX,
        ensures
            final(self).profiles@.len() == old(self).profiles@.len() + 1,
            final(self).profiles@.drop_last() == old(self).profiles@,
            final(self).profiles@.last().id == max_profile_id(old(self).profiles@) + 1,
            final(self).profiles@.last().name@ == name@,
            final(self).profiles@.last().profile_path@ == if profile_path@.len() == 0 {
                default_path_text(name@)
            } else {
                profile_path@
            },
            final(self).profiles@.last().browser_path == browser_path,
            final(self).profiles@.last().fresh(),
            final(self).running == old(self).running,
    {
        let id = largest_profile_id(&self.profiles) + 1;
        let profile_path = if profile_path.as_str().is_empty() {
            ChromiumProfile::default_profile_path(name.clone())
        } else {
            profile_path
        };
        let profile = ChromiumProfile {
            id,
            name,
            profile_path,
            browser_path,
            debugging_port: 0,
            headless: false,
            webrtc: String::from_str("default"),
            proxy: ProxyConfig::default(),
            proxy_server_port: 0,
            is_running: false,
        };
        self.profiles.push(profile);
        assert(self.profiles@.drop_last() =~= old(self).profiles@);
    }

    /// Replaces the first profile whose id is `index`. Without one the
    /// table stays as it is, and the profile is reported as not found.
    pub fn update(&mut self, index: u32, updated_profile: ChromiumProfile) -> (r: Result<
        (),
        ManagerError,
    >)
        ensures
            r is Ok <==> position_of_profile(old(self).profiles@, index, 0) < old(
                self,
            ).profiles@.len(),
            r is Ok ==> final(self).profiles@ == old(self).profiles@.update(
                position_of_profile(old(self).profiles@, index, 0),
                updated_profile,
            ),
            r is Err ==> final(self).profiles@ == old(self).profiles@ && r
                == Err::<(), ManagerError>(ManagerError::ProfileNotFound),
            final(self).running == old(self).running,
    {
        match find_profile(&self.profiles, index) {
            Some(i) => {
                self.profiles.set(i, updated_profile);
                Ok(())
            },
            None => Err(ManagerError::ProfileNotFound),
        }
    }

    /// A copy of the profiles, in their order.
    pub fn get_profiles(&self) -> (r: Vec<ChromiumProfile>)
        ensures
            r@ == self.profiles@,
    {
        let r = self.profiles.clone();
        assert(r@ =~= self.profiles@);
        r
    }

    /// Removes the profile at position `index`, if there is one.
    pub fn remove(&mut self, index: usize)
        ensures
            index < old(self).profiles@.len() ==> final(self).profiles@ == old(
                self,
            ).profiles@.remove(index as int),
            index >= old(self).profiles@.len() ==> final(self).profiles@ == old(self).profiles@,
            final(self).running == old(self).running,
    {
        if index < self.profiles.len() {
            self.profiles.remove(index);
        }
    }

    /// Gives the profile with the id another proxy. Without such a profile
    /// the table stays as it is, and the profile is reported as not found.
    pub fn set_proxy(&mut self, profile_id: u32, proxy: ProxyConfig) -> (r: Result<(), ManagerError>)
        ensures
            r is Ok <==> position_of_profile(old(self).profiles@, profile_id, 0) < old(
                self,
            ).profiles@.len(),
            r is Ok ==> {
                let at = position_of_profile(old(self).profiles@, profile_id, 0);
                &&& final(self).profiles@.len() == old(self).profiles@.len()
                &&& final(self).profiles@[at].proxy == proxy
                &&& final(self).profiles@ == old(self).profiles@.update(
                    at,
                    final(self).profiles@[at],
                )
                &&& final(self).profiles@[at].id == profile_id
                &&& final(self).profiles@[at].name == old(self).profiles@[at].name
                &&& final(self).profiles@[at].profile_path == old(self).profiles@[at].profile_path
                &&& final(self).profiles@[at].browser_path == old(self).profiles@[at].browser_path
                &&& final(self).profiles@[at].debugging_port == old(
                    self,
                ).profiles@[at].debugging_port
                &&& final(self).profiles@[at].headless == old(self).profiles@[at].headless
                &&& final(self).profiles@[at].webrtc == old(self).profiles@[at].webrtc
                &&& final(self).profiles@[at].proxy_server_port == old(
                    self,
                ).profiles@[at].proxy_server_port
                &&& final(self).profiles@[at].is_running == old(self).profiles@[at].is_running
            },
            r is Err ==> final(self).profiles@ == old(self).profiles@ && r
                == Err::<(), ManagerError>(ManagerError::ProfileNotFound),
            final(self).running == old(self).running,
    {
        match find_profile(&self.profiles, profile_id) {
            Some(i) => {
                let mut profile = self.profiles[i].clone();
                profile.proxy = proxy;
                self.profiles.set(i, profile);
                assert(self.profiles@ =~= old(self).profiles@.update(i as int, self.profiles@[i as int]));
                Ok(())
            },
            None => Err(ManagerError::ProfileNotFound),
        }
    }

    /// The browser's arguments for a profile.
    pub fn chromium_command_line(&self, profile: &ChromiumProfile) -> (args: Vec<String>)
        ensures
            texts(args@) == command_line(*profile),
    {
        let mut args: Vec<String> = Vec::new();
        assert(texts(args@) =~= Seq::<Seq<char>>::empty());
        push_text(&mut args, joined("--user-data-dir=", profile.profile_path.as_str()));
        push_text(&mut args, String::from_str("--no-first-run"));
        push_text(&mut args, String::from_str("--no-default-browser-check"));
        push_text(&mut args, String::from_str("--hide-crash-restore-bubble"));
        push_text(&mut args, String::from_str(disabled_features()));
        push_text(&mut args, joined("--lang=", profile.proxy.lang.as_str()));
        push_text(&mut args, joined("--accept-lang=", profile.proxy.accept_lang.as_str()));
        if profile.has_proxy() {
            let mut server = String::from_str("--proxy-server=http://127.0.0.1:");
            append_decimal(&mut server, profile.proxy_server_port as u64);
            push_text(&mut args, server);
        }
        assert(texts(args@) =~= extra_arguments(profile.profile_path@) + seq![
            "--lang="@ + profile.proxy.lang@,
            "--accept-lang="@ + profile.proxy.accept_lang@,
        ] + forward_arguments(*profile));
        push_headless(&mut args, profile.headless);
        push_webrtc(&mut args, profile.webrtc.as_str(), "disabled");
        assert(texts(args@) =~= command_line(*profile));
        args
    }

    /// Prepares the start of a profile and marks it as running. A profile
    /// with a proxy gets `available_port` for its forwarding proxy, which is
    /// to listen there before the browser starts; the browser is pointed at
    /// it.
    pub fn start(&mut self, profile: ChromiumProfile, available_port: u16) -> (launch: Launch)
        ensures
            launch.forward == proxied(profile),
            launch.program == profile.browser_path,
            launch.profile.proxy_server_port == if proxied(profile) {
                available_port
            } else {
                profile.proxy_server_port
            },
            launch.profile.id == profile.id,
            launch.profile.name == profile.name,
            launch.profile.profile_path == profile.profile_path,
            launch.profile.browser_path == profile.browser_path,
            launch.profile.debugging_port == profile.debugging_port,
            launch.profile.headless == profile.headless,
            launch.profile.webrtc == profile.webrtc,
            launch.profile.proxy == profile.proxy,
            launch.profile.is_running == profile.is_running,
            texts(launch.arguments@) == command_line(launch.profile),
            final(self).profiles == old(self).profiles,
            texts(final(self).running@) == if texts(old(self).running@).contains(profile.name@) {
                texts(old(self).running@)
            } else {
                texts(old(self).running@).push(profile.name@)
            },
    {
        let mut profile = profile;
        let forward = profile.has_proxy();
        if forward {
            profile.proxy_server_port = available_port;
        }
        let arguments = self.chromium_command_line(&profile);
        if !holds(&self.running, &profile.name) {
            push_text(&mut self.running, profile.name.clone());
        }
        Launch { program: profile.browser_path.clone(), arguments, profile, forward }
    }

    /// Whether a profile of this name is marked as running.
    pub fn is_running(&self, name: &str) -> (r: bool)
        ensures
            r == texts(self.running@).contains(name@),
    {
        holds(&self.running, &String::from_str(name))
    }

    /// Takes a profile out of the running ones; tells whether it was among
    /// them, in which case its browser is to be ended.
    pub fn stop(&mut self, name: &str) -> (was_running: bool)
        ensures
            was_running == texts(old(self).running@).contains(name@),
            !texts(final(self).running@).contains(name@),
            forall|other: Seq<char>|
                other != name@ ==> (texts(final(self).running@).contains(other) <==> texts(
                    old(self).running@,
                ).contains(other)),
            final(self).profiles == old(self).profiles,
    {
        let mut kept: Vec<String> = Vec::new();
        let mut was_running = false;
        let mut i: usize = 0;
        let wanted = String::from_str(name);
        while i < self.running.len()
            invariant
                i <= self.running.len(),
                self.running == old(self).running,
                self.profiles == old(self).profiles,
                wanted@ == name@,
                was_running == texts(self.running@.take(i as int)).contains(name@),
                !texts(kept@).contains(name@),
                forall|other: Seq<char>|
                    other != name@ ==> (texts(kept@).contains(other) <==> texts(
                        self.running@.take(i as int),
                    ).contains(other)),
            decreases self.running.len() - i,
        {
            broadcast use vstd::seq_lib::lemma_seq_contains_after_push;

            assert(texts(self.running@.take(i + 1)) =~= texts(self.running@.take(i as int)).push(
                self.running@[i as int]@,
            ));
            if self.running[i] == wanted {
                was_running = true;
            } else {
                push_text(&mut kept, self.running[i].clone());
            }
            i += 1;
        }
        assert(self.running@.take(i as int) =~= self.running@);
        self.running = kept;
        was_running
    }
}

} // verus!
