//! A DevTools listener that reads the profile anew at every event: the
//! credentials and the image policy are those that the profile has when the
//! event arrives. The ids of its commands come from the session's counter,
//! so no id is sent twice.

use vstd::prelude::*;
use vstd::string::StringExecFns;
use crate::chromium::chromium::ChromiumProfile;
use crate::chromium::driver::{
    has_ids, issue, resolution, well_formed, Command, CommandView, Driver, DriverView, Outgoing,
    OutgoingView,
};
use crate::chromium::websocket::{
    decoded, reaction_with, Event, EventView, Reaction, ReactionView,
};
use crate::policy::{decide, Decision, ImagePolicy};

verus! {

/// The page that the test navigates to.
pub open spec fn test_page() -> Seq<char> {
    "https://www.google.com/recaptcha/api2/demo"@
}

/// The view of a message that may be absent.
pub open spec fn message_view(message: Option<Outgoing>) -> Option<OutgoingView> {
    match message {
        Some(m) => Some(m@),
        None => None,
    }
}

/// How the listener answers an event on a profile: as a session does, with
/// the profile's present credentials and image policy.
pub open spec fn listener_reaction(
    driver: DriverView,
    event: EventView,
    profile: ChromiumProfile,
) -> (DriverView, ReactionView) {
    reaction_with(
        driver,
        event,
        profile.proxy.proxy_username@,
        profile.proxy.proxy_password@,
        ImagePolicy::of_code(profile.images),
    )
}

/// How the listener answers a frame's text. A frame that is no JSON
/// document ends the session.
pub open spec fn listener_answer(
    driver: DriverView,
    text: Seq<char>,
    profile: ChromiumProfile,
) -> (DriverView, ReactionView) {
    match decoded(text) {
        Some(event) => listener_reaction(driver, event, profile),
        None => (driver, ReactionView::SessionLost),
    }
}

/// Opens the listener's traffic: `Fetch.enable` under the session's next
/// id. A session without an id left sends nothing.
pub fn start_cdp(driver: &mut Driver) -> (message: Option<Outgoing>)
    requires
        well_formed(old(driver)@),
    ensures
        well_formed(final(driver)@),
        has_ids(old(driver)@) ==> (final(driver)@, message_view(message)) == (
            issue(old(driver)@, CommandView::FetchEnable).0,
            Some(issue(old(driver)@, CommandView::FetchEnable).1),
        ),
        !has_ids(old(driver)@) ==> message is None && final(driver)@ == old(driver)@,
{
    if driver.can_send() {
        Some(driver.enable_fetch_domain())
    } else {
        None
    }
}

/// The messages of the test: the domains are enabled, then the browser is
/// sent to the test page, each under the session's next id. A session
/// without three ids left sends nothing.
pub fn test_bot(driver: &mut Driver) -> (messages: Vec<Outgoing>)
    requires
        well_formed(old(driver)@),
    ensures
        well_formed(final(driver)@),
        old(driver)@.next_id < u64::MAX - 2 ==> messages@.len() == 3 && {
            let (first, page) = issue(old(driver)@, CommandView::PageEnable);
            let (second, fetch) = issue(first, CommandView::FetchEnable);
            let (third, navigate) = issue(second, CommandView::PageNavigate { url: test_page() });
            &&& messages@[0]@ == page
            &&& messages@[1]@ == fetch
            &&& messages@[2]@ == navigate
            &&& final(driver)@ == third
        },
        old(driver)@.next_id >= u64::MAX - 2 ==> messages@.len() == 0 && final(driver)@ == old(
            driver,
        )@,
{
    driver.start("https://www.google.com/recaptcha/api2/demo")
}

/// Answers an authentication challenge with the profile's present
/// credentials, under the session's next id.
pub fn handle_auth_required(driver: &mut Driver, request_id: &str, profile: &ChromiumProfile) -> (message:
    Outgoing)
    requires
        well_formed(old(driver)@),
        has_ids(old(driver)@),
    ensures
        (final(driver)@, message@) == issue(
            old(driver)@,
            CommandView::ContinueWithAuth {
                request_id: request_id@,
                username: profile.proxy.proxy_username@,
                password: profile.proxy.proxy_password@,
            },
        ),
        well_formed(final(driver)@),
{
    let command = Command::ContinueWithAuth {
        request_id: String::from_str(request_id),
        username: profile.proxy.proxy_username.clone(),
        password: profile.proxy.proxy_password.clone(),
    };
    driver.send(command)
}

/// Resolves a paused request by the profile's present image policy, under
/// the session's next id.
pub fn handle_request_paused(
    driver: &mut Driver,
    request_id: &str,
    resource_type: &str,
    url: &str,
    profile: &ChromiumProfile,
) -> (message: Outgoing)
    requires
        well_formed(old(driver)@),
        has_ids(old(driver)@),
    ensures
        (final(driver)@, message@) == issue(
            old(driver)@,
            resolution(request_id@, resource_type@, url@, ImagePolicy::of_code(profile.images)),
        ),
        well_formed(final(driver)@),
{
    match decide(resource_type, url, profile.image_policy()) {
        Decision::Block => driver.block_request(request_id),
        Decision::Continue => driver.continue_request(request_id),
    }
}

/// The listener's answer to an event.
pub fn answer_event(driver: &mut Driver, event: &Event, profile: &ChromiumProfile) -> (reaction:
    Reaction)
    requires
        well_formed(old(driver)@),
    ensures
        (final(driver)@, reaction@) == listener_reaction(old(driver)@, event@, *profile),
        well_formed(final(driver)@),
{
    match event {
        Event::PageLoaded => Reaction::NavigationComplete,
        Event::Unhandled => Reaction::Unhandled,
        Event::Unanswerable => Reaction::Unanswerable,
        Event::AuthRequired { request_id } => {
            if driver.can_send() {
                Reaction::Send(handle_auth_required(driver, request_id.as_str(), profile))
            } else {
                Reaction::SessionLost
            }
        },
        Event::RequestPaused { request_id, resource_type, url } => {
            if driver.can_send() {
                Reaction::Send(
                    handle_request_paused(
                        driver,
                        request_id.as_str(),
                        resource_type.as_str(),
                        url.as_str(),
                        profile,
                    ),
                )
            } else {
                Reaction::SessionLost
            }
        },
    }
}

/// The listener's answer to a text frame of the socket.
pub fn start_cdp_listener(driver: &mut Driver, text: &str, profile: &ChromiumProfile) -> (reaction:
    Reaction)
    requires
        well_formed(old(driver)@),
    ensures
        (final(driver)@, reaction@) == listener_answer(old(driver)@, text@, *profile),
        well_formed(final(driver)@),
{
    match Event::decode(text) {
        Some(event) => answer_event(driver, &event, profile),
        None => Reaction::SessionLost,
    }
}

} // verus!
