//! The panel that lists the profiles and edits one of them.

use vstd::prelude::*;
use crate::chromium::chromium_manager::ChromiumProfile;

verus! {

/// The list of profiles, with the profile under edit.
#[derive(Debug)]
pub struct ProfilesListPanel {
    /// A copy of the profile under edit.
    pub selected_profile: ChromiumProfile,
    /// The id of the profile under edit; 0 where none is.
    pub id_to_edit: u32,
    /// Whether the edited copy is to be written back.
    pub save_changes_status: bool,
}

/// The first of the debugging ports that the panel hands out.
pub const BASE_DEBUGGING_PORT: u32 = 9222;

/// The position of the first profile at or after `from` with the given
/// name; the number of profiles if there is none.
pub open spec fn position_of_profile_name(
    profiles: Seq<ChromiumProfile>,
    name: Seq<char>,
    from: int,
) -> int
    decreases profiles.len() - from,
{
    if from < 0 || from >= profiles.len() {
        profiles.len() as int
    } else if profiles[from].name@ == name {
        from
    } else {
        position_of_profile_name(profiles, name, from + 1)
    }
}

/// The debugging port for the profile of a name: the base port plus the
/// profile's position in the table, and the base port for a name that the
/// table does not hold.
pub open spec fn debugging_port_of(profiles: Seq<ChromiumProfile>, name: Seq<char>) -> int {
    let at = position_of_profile_name(profiles, name, 0);
    if at < profiles.len() {
        BASE_DEBUGGING_PORT + at
    } else {
        BASE_DEBUGGING_PORT as int
    }
}

impl ProfilesListPanel {
    /// The panel with no profile under edit.
    pub fn new() -> (r: Self)
        ensures
            r.selected_profile.blank(),
            r.id_to_edit == 0,
            !r.save_changes_status,
    {
        ProfilesListPanel {
            selected_profile: ChromiumProfile::default(),
            id_to_edit: 0,
            save_changes_status: false,
        }
    }

    /// Whether a profile is under edit.
    pub fn is_editing(&self) -> (r: bool)
        ensures
            r == (self.id_to_edit > 0),
    {
        self.id_to_edit > 0
    }

    /// Takes a profile under edit.
    pub fn select(&mut self, profile: &ChromiumProfile)
        ensures
            final(self).selected_profile == *profile,
            final(self).id_to_edit == profile.id,
            final(self).save_changes_status == old(self).save_changes_status,
    {
        self.selected_profile = profile.clone();
        self.id_to_edit = profile.id;
    }

    /// Ends the edit without writing back.
    pub fn close(&mut self)
        ensures
            final(self).id_to_edit == 0,
            !final(self).save_changes_status,
            final(self).selected_profile == old(self).selected_profile,
    {
        self.id_to_edit = 0;
        self.save_changes_status = false;
    }

    /// Turns debugging of the edited profile on or off. Turned on, the
    /// profile gets the port that goes with its position in the table;
    /// turned off, it gets port 0. A table too long for the port to be
    /// numbered leaves the profile as it is.
    pub fn set_debugging(&mut self, enabled: bool, profiles: &Vec<ChromiumProfile>)
        ensures
            final(self).id_to_edit == old(self).id_to_edit,
            final(self).save_changes_status == old(self).save_changes_status,
            final(self).selected_profile.debugging_port == if !enabled {
                0
            } else if debugging_port_of(profiles@, old(self).selected_profile.name@) <= u32::MAX {
                debugging_port_of(profiles@, old(self).selected_profile.name@) as u32
            } else {
                old(self).selected_profile.debugging_port
            },
            final(self).selected_profile.id == old(self).selected_profile.id,
            final(self).selected_profile.name == old(self).selected_profile.name,
            final(self).selected_profile.profile_path == old(self).selected_profile.profile_path,
            final(self).selected_profile.browser_path == old(self).selected_profile.browser_path,
            final(self).selected_profile.headless == old(self).selected_profile.headless,
            final(self).selected_profile.webrtc == old(self).selected_profile.webrtc,
            final(self).selected_profile.proxy == old(self).selected_profile.proxy,
            final(self).selected_profile.proxy_server_port == old(
                self,
            ).selected_profile.proxy_server_port,
            final(self).selected_profile.is_running == old(self).selected_profile.is_running,
    {
        if !enabled {
            self.selected_profile.debugging_port = 0;
            return ;
        }
        let mut i: usize = 0;
        while i < profiles.len()
            invariant
                i <= profiles.len(),
                enabled,
                *self == *old(self),
                position_of_profile_name(profiles@, self.selected_profile.name@, 0)
                    == position_of_profile_name(profiles@, self.selected_profile.name@, i as int),
            decreases profiles.len() - i,
        {
            if profiles[i].name == self.selected_profile.name {
                if i <= (u32::MAX - BASE_DEBUGGING_PORT) as usize {
                    self.selected_profile.debugging_port = BASE_DEBUGGING_PORT + i as u32;
                }
                return ;
            }
            i += 1;
        }
        self.selected_profile.debugging_port = BASE_DEBUGGING_PORT;
    }
}

} // verus!
