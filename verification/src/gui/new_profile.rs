//! The panel that creates a profile.

use vstd::prelude::*;
use crate::chromium::chromium_manager::{default_path_text, max_profile_id, ChromiumManager};
use crate::gui::custom_browser::CustomBrowser;

verus! {

/// The form for a new profile.
#[derive(Debug)]
pub struct NewProfilePanel {
    pub selected_browser: Option<CustomBrowser>,
    pub new_profile_name: String,
    pub custom_profile_path_status: bool,
    pub custom_profile_path: String,
}

/// Why the form creates no profile.
#[derive(Clone, Copy, Debug, PartialEq, Eq, Structural)]
pub enum FormError {
    /// No browser is selected.
    NoBrowser,
    /// The table has run out of ids.
    TableFull,
}

impl NewProfilePanel {
    /// An empty form.
    pub fn new() -> (r: Self)
        ensures
            r.selected_browser is None,
            r.new_profile_name@.len() == 0,
            !r.custom_profile_path_status,
            r.custom_profile_path@.len() == 0,
    {
        NewProfilePanel {
            selected_browser: None,
            new_profile_name: String::new(),
            custom_profile_path_status: false,
            custom_profile_path: String::new(),
        }
    }

    /// Whether the form has a profile name.
    pub fn has_name(&self) -> (r: bool)
        ensures
            r == (self.new_profile_name@.len() != 0),
    {
        !self.new_profile_name.as_str().is_empty()
    }

    /// Creates the profile of the form in the table: under the typed name,
    /// in the default directory, for the selected browser. Nothing is
    /// created without a selected browser or in a table without ids left.
    pub fn create(&self, manager: &mut ChromiumManager) -> (r: Result<(), FormError>)
        ensures
            r is Ok <==> self.selected_browser is Some && max_profile_id(old(manager).profiles@)
                < u32::MAX,
            r == Err::<(), FormError>(FormError::NoBrowser) <==> self.selected_browser is None,
            r is Err ==> final(manager).profiles@ == old(manager).profiles@,
            r is Ok ==> {
                &&& final(manager).profiles@.drop_last() == old(manager).profiles@
                &&& final(manager).profiles@.len() == old(manager).profiles@.len() + 1
                &&& final(manager).profiles@.last().id == max_profile_id(old(manager).profiles@)
                    + 1
                &&& final(manager).profiles@.last().name@ == self.new_profile_name@
                &&& final(manager).profiles@.last().profile_path@ == default_path_text(
                    self.new_profile_name@,
                )
                &&& final(manager).profiles@.last().browser_path@
                    == self.selected_browser->Some_0.path@
                &&& final(manager).profiles@.last().fresh()
            },
            final(manager).running == old(manager).running,
    {
        match &self.selected_browser {
            None => Err(FormError::NoBrowser),
            Some(browser) => {
                if !manager.has_room() {
                    return Err(FormError::TableFull);
                }
                manager.add_new_profile(
                    self.new_profile_name.clone(),
                    String::new(),
                    browser.path.clone(),
                );
                Ok(())
            },
        }
    }
}

} // verus!
