//! The state behind the panels of the user interface. Drawing is not done
//! here: a panel's state changes by the operations below, and whoever draws
//! the panel calls them.

pub mod custom_browser;
pub mod logger;
pub mod new_profile;
pub mod new_profile_section;
pub mod new_proxy;
pub mod profiles_list;
pub mod proxies_list;
pub mod proxy_manager_section;
pub mod render_util;
