//! The browsers that the user has registered by hand.

use vstd::prelude::*;

verus! {

/// A browser executable under a name of the user's choice.
#[derive(Debug)]
pub struct CustomBrowser {
    pub name: String,
    pub path: String,
}

/// The panel that lists the registered browsers.
#[derive(Debug)]
pub struct CustomBrowserPanel {
    pub installed_browsers: Vec<CustomBrowser>,
    /// The name typed for the next browser.
    pub new_browser_name: String,
}

impl Clone for CustomBrowser {
    fn clone(&self) -> (r: Self)
        ensures
            r == *self,
    {
        CustomBrowser { name: self.name.clone(), path: self.path.clone() }
    }
}

impl CustomBrowserPanel {
    /// The panel over a list of browsers, with no name typed.
    pub fn with_browsers(installed_browsers: Vec<CustomBrowser>) -> (r: Self)
        ensures
            r.installed_browsers == installed_browsers,
            r.new_browser_name@.len() == 0,
    {
        CustomBrowserPanel { installed_browsers, new_browser_name: String::new() }
    }

    /// Registers the executable at `path` under the name that was typed.
    pub fn add_executable(&mut self, path: String)
        ensures
            final(self).new_browser_name == old(self).new_browser_name,
            final(self).installed_browsers@.len() == old(self).installed_browsers@.len() + 1,
            final(self).installed_browsers@.drop_last() == old(self).installed_browsers@,
            final(self).installed_browsers@.last().name == old(self).new_browser_name,
            final(self).installed_browsers@.last().path == path,
    {
        let browser = CustomBrowser { name: self.new_browser_name.clone(), path };
        self.installed_browsers.push(browser);
        assert(self.installed_browsers@.drop_last() =~= old(self).installed_browsers@);
    }

    /// Removes the browser at position `index`; tells whether there was
    /// one.
    pub fn remove(&mut self, index: usize) -> (removed: bool)
        ensures
            removed == (index < old(self).installed_browsers@.len()),
            removed ==> final(self).installed_browsers@ == old(self).installed_browsers@.remove(
                index as int,
            ),
            !removed ==> final(self).installed_browsers@ == old(self).installed_browsers@,
            final(self).new_browser_name == old(self).new_browser_name,
    {
        if index < self.installed_browsers.len() {
            self.installed_browsers.remove(index);
            true
        } else {
            false
        }
    }

    /// The name shown for the browser selector: that of the first browser,
    /// or nothing.
    pub fn first_name(&self) -> (r: &str)
        ensures
            r@ == if self.installed_browsers@.len() > 0 {
                self.installed_browsers@[0].name@
            } else {
                Seq::<char>::empty()
            },
    {
        if self.installed_browsers.len() > 0 {
            self.installed_browsers[0].name.as_str()
        } else {
            proof {
                reveal_strlit("");
                assert(""@ =~= Seq::<char>::empty());
            }
            ""
        }
    }
}

} // verus!
