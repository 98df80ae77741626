//! The DevTools session: where the browser listens, what its messages mean
//! and how the session answers them.
//!
//! Reading and writing the socket is the caller's part. It hands every text
//! frame to `Driver::handle_message` and sends what comes back, one message
//! at a time, in the order of arrival.

use vstd::prelude::*;
use vstd::string::StringExecFns;
use crate::chromium::driver::{
    has_ids, issue, issue_keeps_well_formed, message_text, resolution, well_formed, CommandView,
    Driver, DriverView, Outgoing, OutgoingView,
};
use crate::codec::{json_text_at, json_texts, json_valid, text_view};
use crate::policy::ImagePolicy;
use crate::text::{has_infix, has_suffix};
use crate::text::{
    append_decimal, chars_of, decimal_text, is_word, skip_spaces, text_or, word_start,
};

verus! {

/// Why a session could not be opened.
#[derive(Clone, Copy, Debug, PartialEq, Eq, Structural)]
pub enum TransportError {
    /// The browser's debugging endpoint gave no page to attach to: the
    /// request failed, its answer lists no page, or the page names no
    /// WebSocket URL. The browser may not listen yet.
    EndpointUnavailable,
    /// The WebSocket handshake failed.
    ConnectFailed,
}

/// What an incoming message means to the session.
#[derive(Debug)]
pub enum Event {
    /// `Page.frameStoppedLoading` or `Page.loadEventFired`: the navigation
    /// is complete.
    PageLoaded,
    /// `Fetch.authRequired`: the proxy asks for credentials.
    AuthRequired { request_id: String },
    /// `Fetch.requestPaused`: a request waits for its verdict.
    RequestPaused { request_id: String, resource_type: String, url: String },
    /// `Fetch.authRequired` or `Fetch.requestPaused` without a request id:
    /// the request cannot be answered.
    Unanswerable,
    /// Any other message. No reply is due.
    Unhandled,
}

/// The mathematical content of an `Event`.
pub enum EventView {
    PageLoaded,
    AuthRequired { request_id: Seq<char> },
    RequestPaused { request_id: Seq<char>, resource_type: Seq<char>, url: Seq<char> },
    Unanswerable,
    Unhandled,
}

impl View for Event {
    type V = EventView;

    open spec fn view(&self) -> EventView {
        match self {
            Event::PageLoaded => EventView::PageLoaded,
            Event::AuthRequired { request_id } => EventView::AuthRequired {
                request_id: request_id@,
            },
            Event::RequestPaused { request_id, resource_type, url } => EventView::RequestPaused {
                request_id: request_id@,
                resource_type: resource_type@,
                url: url@,
            },
            Event::Unanswerable => EventView::Unanswerable,
            Event::Unhandled => EventView::Unhandled,
        }
    }
}

/// What the session does about an incoming message.
#[derive(Debug)]
pub enum Reaction {
    /// Send this one message.
    Send(Outgoing),
    /// Nothing to send: the navigation is complete.
    NavigationComplete,
    /// Nothing to send: the message asks for no reply.
    Unhandled,
    /// Nothing can be sent: the request to answer has no id. The request
    /// stays unresolved.
    Unanswerable,
    /// The message is no JSON document, or the session has run out of ids.
    /// The browser can no longer be controlled.
    SessionLost,
}

/// The mathematical content of a `Reaction`.
pub enum ReactionView {
    Send(OutgoingView),
    NavigationComplete,
    Unhandled,
    Unanswerable,
    SessionLost,
}

impl View for Reaction {
    type V = ReactionView;

    open spec fn view(&self) -> ReactionView {
        match self {
            Reaction::Send(message) => ReactionView::Send(message@),
            Reaction::NavigationComplete => ReactionView::NavigationComplete,
            Reaction::Unhandled => ReactionView::Unhandled,
            Reaction::Unanswerable => ReactionView::Unanswerable,
            Reaction::SessionLost => ReactionView::SessionLost,
        }
    }
}

/// A text that may be absent; the empty text where it is.
pub open spec fn or_empty(text: Option<Seq<char>>) -> Seq<char> {
    match text {
        Some(t) => t,
        None => Seq::empty(),
    }
}

/// What a message means, by its method, its request id, its resource type
/// and the URL of its request.
pub open spec fn classify(
    method: Option<Seq<char>>,
    request_id: Option<Seq<char>>,
    resource_type: Option<Seq<char>>,
    url: Option<Seq<char>>,
) -> EventView {
    if method == Some("Page.frameStoppedLoading"@) || method == Some("Page.loadEventFired"@) {
        EventView::PageLoaded
    } else if method == Some("Fetch.authRequired"@) {
        match request_id {
            Some(request_id) => EventView::AuthRequired { request_id },
            None => EventView::Unanswerable,
        }
    } else if method == Some("Fetch.requestPaused"@) {
        match request_id {
            Some(request_id) => EventView::RequestPaused {
                request_id,
                resource_type: or_empty(resource_type),
                url: or_empty(url),
            },
            None => EventView::Unanswerable,
        }
    } else {
        EventView::Unhandled
    }
}

/// What a message's text means; nothing where the text is no JSON document.
pub open spec fn decoded(text: Seq<char>) -> Option<EventView> {
    if json_valid(text) {
        Some(
            classify(
                json_text_at(text, "/method"@),
                json_text_at(text, "/params/requestId"@),
                json_text_at(text, "/params/resourceType"@),
                json_text_at(text, "/params/request/url"@),
            ),
        )
    } else {
        None
    }
}

/// The command that answers an event, with the credentials and the image
/// policy that hold at the time: the credentials for an authentication
/// challenge, the verdict for a paused request, and none for any other
/// event.
pub open spec fn answer_command(
    event: EventView,
    username: Seq<char>,
    password: Seq<char>,
    images: ImagePolicy,
) -> Option<CommandView> {
    match event {
        EventView::AuthRequired { request_id } => Some(
            CommandView::ContinueWithAuth { request_id, username, password },
        ),
        EventView::RequestPaused { request_id, resource_type, url } => Some(
            resolution(request_id, resource_type, url, images),
        ),
        _ => None,
    }
}

/// What a session says of an event that asks for no command.
pub open spec fn silent_reaction(event: EventView) -> ReactionView {
    match event {
        EventView::PageLoaded => ReactionView::NavigationComplete,
        EventView::Unanswerable => ReactionView::Unanswerable,
        _ => ReactionView::Unhandled,
    }
}

/// A session's answer with a command: the command is issued under the
/// session's next id and sent. A session that has run out of ids is lost
/// and stays as it is.
pub open spec fn answer_with(driver: DriverView, command: CommandView) -> (
    DriverView,
    ReactionView,
) {
    if has_ids(driver) {
        let (after, message) = issue(driver, command);
        (after, ReactionView::Send(message))
    } else {
        (driver, ReactionView::SessionLost)
    }
}

/// How a session answers an event, with the credentials and the image
/// policy that hold at the time. An event that asks for a command gets
/// exactly that one; any other event leaves the session as it is.
pub open spec fn reaction_with(
    driver: DriverView,
    event: EventView,
    username: Seq<char>,
    password: Seq<char>,
    images: ImagePolicy,
) -> (DriverView, ReactionView) {
    match answer_command(event, username, password, images) {
        Some(command) => answer_with(driver, command),
        None => (driver, silent_reaction(event)),
    }
}

/// How a session answers an event: with the credentials and the image
/// policy of the profile that it was opened on.
pub open spec fn reaction_to(driver: DriverView, event: EventView) -> (DriverView, ReactionView) {
    reaction_with(driver, event, driver.username, driver.password, driver.images)
}

/// How a session answers a message's text.
pub open spec fn answer_to(driver: DriverView, text: Seq<char>) -> (DriverView, ReactionView) {
    match decoded(text) {
        Some(event) => reaction_to(driver, event),
        None => (driver, ReactionView::SessionLost),
    }
}

/// The address of the browser's list of pages.
pub open spec fn devtools_url_text(port: u16) -> Seq<char> {
    "http://127.0.0.1:"@ + decimal_text(port as nat) + "/json"@
}

/// The WebSocket URL that a list of pages names for its first page.
pub open spec fn endpoint_of(found: Option<Seq<char>>) -> Result<Seq<char>, TransportError> {
    match found {
        Some(url) => Ok(url),
        None => Err(TransportError::EndpointUnavailable),
    }
}

/// The text opens a list: its first character after white space is `[`.
pub open spec fn opens_list(text: Seq<char>) -> bool {
    word_start(text, 0) < text.len() && text[word_start(text, 0)] == '['
}

/// The WebSocket URL in the answer of the debugging endpoint: that of the
/// first page, where the answer is a JSON document, a list, and names one.
pub open spec fn endpoint_in(body: Seq<char>) -> Result<Seq<char>, TransportError> {
    if json_valid(body) && opens_list(body) {
        endpoint_of(json_text_at(body, "/0/webSocketDebuggerUrl"@))
    } else {
        Err(TransportError::EndpointUnavailable)
    }
}

/// The view of a result that holds a text.
pub open spec fn url_view(r: Result<String, TransportError>) -> Result<Seq<char>, TransportError> {
    match r {
        Ok(url) => Ok(url@),
        Err(e) => Err(e),
    }
}

/// The address of the browser's list of pages.
pub fn devtools_url(port: u16) -> (r: String)
    ensures
        r@ == devtools_url_text(port),
{
    let mut url = String::from_str("http://127.0.0.1:");
    append_decimal(&mut url, port as u64);
    url.append("/json");
    assert(url@ =~= devtools_url_text(port));
    url
}

/// The WebSocket URL of the first page, where the list names one.
pub fn first_page_url(found: Option<String>) -> (r: Result<String, TransportError>)
    ensures
        url_view(r) == endpoint_of(text_view(found)),
{
    match found {
        Some(url) => Ok(url),
        None => Err(TransportError::EndpointUnavailable),
    }
}

/// Whether a text opens a list.
pub fn is_list(text: &str) -> (r: bool)
    ensures
        r == opens_list(text@),
{
    let chars = chars_of(text);
    let start = skip_spaces(&chars, 0);
    start < chars.len() && chars[start] == '['
}

/// Reads the answer of the debugging endpoint: the WebSocket URL of the
/// first page. An answer that is no JSON document, is no list, lists no
/// page or names no URL for the first page leaves the endpoint unavailable.
pub fn resolve_endpoint(body: &str) -> (r: Result<String, TransportError>)
    ensures
        url_view(r) == endpoint_in(body@),
{
    if !is_list(body) {
        return Err(TransportError::EndpointUnavailable);
    }
    let mut pointers: Vec<&str> = Vec::new();
    pointers.push("/0/webSocketDebuggerUrl");
    match json_texts(body, &pointers) {
        Ok(mut found) => first_page_url(found.pop().unwrap()),
        Err(_) => Err(TransportError::EndpointUnavailable),
    }
}

impl Event {
    /// What a message means, by the fields that were found in it.
    pub fn of_fields(
        method: Option<String>,
        request_id: Option<String>,
        resource_type: Option<String>,
        url: Option<String>,
    ) -> (event: Event)
        ensures
            event@ == classify(
                text_view(method),
                text_view(request_id),
                text_view(resource_type),
                text_view(url),
            ),
    {
        let method = match method {
            Some(method) => method,
            None => {
                return Event::Unhandled;
            },
        };
        let name = method.as_str();
        proof {
            reveal_strlit("");
            assert(""@ =~= Seq::<char>::empty());
        }
        if is_word(name, "Page.frameStoppedLoading") || is_word(name, "Page.loadEventFired") {
            Event::PageLoaded
        } else if is_word(name, "Fetch.authRequired") {
            match request_id {
                Some(request_id) => Event::AuthRequired { request_id },
                None => Event::Unanswerable,
            }
        } else if is_word(name, "Fetch.requestPaused") {
            match request_id {
                Some(request_id) => Event::RequestPaused {
                    request_id,
                    resource_type: text_or(resource_type, ""),
                    url: text_or(url, ""),
                },
                None => Event::Unanswerable,
            }
        } else {
            Event::Unhandled
        }
    }

    /// Reads a message. A text that is no JSON document has no meaning.
    pub fn decode(text: &str) -> (event: Option<Event>)
        ensures
            match event {
                Some(e) => decoded(text@) == Some(e@),
                None => decoded(text@) is None,
            },
    {
        let mut pointers: Vec<&str> = Vec::new();
        pointers.push("/method");
        pointers.push("/params/requestId");
        pointers.push("/params/resourceType");
        pointers.push("/params/request/url");
        match json_texts(text, &pointers) {
            Ok(mut found) => {
                let url = found.pop().unwrap();
                let resource_type = found.pop().unwrap();
                let request_id = found.pop().unwrap();
                let method = found.pop().unwrap();
                Some(Event::of_fields(method, request_id, resource_type, url))
            },
            Err(_) => None,
        }
    }
}

impl Driver {
    /// Opens the session's traffic: `Page.enable`, then `Fetch.enable`, then
    /// the navigation to `url`, in this order. A session without three ids
    /// left issues nothing.
    pub fn start(&mut self, url: &str) -> (messages: Vec<Outgoing>)
        requires
            well_formed(old(self)@),
        ensures
            well_formed(final(self)@),
            old(self)@.next_id < u64::MAX - 2 ==> messages@.len() == 3 && {
                let (first, page) = issue(old(self)@, CommandView::PageEnable);
                let (second, fetch) = issue(first, CommandView::FetchEnable);
                let (third, navigate) = issue(second, CommandView::PageNavigate { url: url@ });
                &&& messages@[0]@ == page
                &&& messages@[1]@ == fetch
                &&& messages@[2]@ == navigate
                &&& final(self)@ == third
            },
            old(self)@.next_id >= u64::MAX - 2 ==> messages@.len() == 0 && final(self)@ == old(
                self,
            )@,
    {
        let mut messages: Vec<Outgoing> = Vec::new();
        if self.next_id() >= u64::MAX - 2 {
            return messages;
        }
        let page = self.enable_page_domain();
        messages.push(page);
        let fetch = self.enable_fetch_domain();
        messages.push(fetch);
        let navigate = self.navigate_to(url);
        messages.push(navigate);
        messages
    }

    /// Answers one event of the session.
    pub fn react(&mut self, event: Event) -> (reaction: Reaction)
        requires
            well_formed(old(self)@),
        ensures
            (final(self)@, reaction@) == reaction_to(old(self)@, event@),
            well_formed(final(self)@),
    {
        match event {
            Event::PageLoaded => Reaction::NavigationComplete,
            Event::Unhandled => Reaction::Unhandled,
            Event::Unanswerable => Reaction::Unanswerable,
            Event::AuthRequired { request_id } => {
                if self.can_send() {
                    Reaction::Send(self.handle_auth_required(request_id.as_str()))
                } else {
                    Reaction::SessionLost
                }
            },
            Event::RequestPaused { request_id, resource_type, url } => {
                if self.can_send() {
                    Reaction::Send(
                        self.handle_request_paused(
                            request_id.as_str(),
                            resource_type.as_str(),
                            url.as_str(),
                        ),
                    )
                } else {
                    Reaction::SessionLost
                }
            },
        }
    }

    /// Answers one text frame of the socket. A frame that is no JSON
    /// document ends the session.
    pub fn handle_message(&mut self, text: &str) -> (reaction: Reaction)
        requires
            well_formed(old(self)@),
        ensures
            (final(self)@, reaction@) == answer_to(old(self)@, text@),
            well_formed(final(self)@),
    {
        match Event::decode(text) {
            Some(event) => self.react(event),
            None => Reaction::SessionLost,
        }
    }
}

/// The reactions of a session to a run of events, and the state that it
/// ends in.
pub open spec fn session_run(driver: DriverView, events: Seq<EventView>) -> (
    DriverView,
    Seq<ReactionView>,
)
    decreases events.len(),
{
    if events.len() == 0 {
        (driver, Seq::empty())
    } else {
        let (before, reactions) = session_run(driver, events.drop_last());
        let (after, reaction) = reaction_to(before, events.last());
        (after, reactions.push(reaction))
    }
}

/// An answer is one message: a well-formed session with an id left sends
/// exactly the command, under its next id, which is above every id sent
/// before; the log gains that command and nothing else, and the session
/// keeps its credentials and its policy. A session without an id left is
/// lost and stays as it is.
pub proof fn answer_is_one_message(driver: DriverView, command: CommandView)
    requires
        well_formed(driver),
        !(command is PageNavigate),
    ensures
        ({
            let (after, reaction) = answer_with(driver, command);
            if has_ids(driver) {
                &&& reaction is Send
                &&& reaction->Send_0.command == command
                &&& reaction->Send_0.id == driver.log.len() + 1
                &&& reaction->Send_0.text == message_text(reaction->Send_0.id, command)
                &&& after.log == driver.log.push(command)
                &&& after.next_id == reaction->Send_0.id + 1
                &&& after.username == driver.username
                &&& after.password == driver.password
                &&& after.images == driver.images
                &&& well_formed(after)
            } else {
                after == driver && reaction == ReactionView::SessionLost
            }
        }),
{
    if has_ids(driver) {
        issue_keeps_well_formed(driver, command);
    }
}

/// Under `AllowAll` every paused request goes on: the answer is
/// `Fetch.continueRequest` with the id of the request.
pub proof fn allow_all_session_continues(
    driver: DriverView,
    request_id: Seq<char>,
    resource_type: Seq<char>,
    url: Seq<char>,
)
    requires
        driver.images == ImagePolicy::AllowAll,
    ensures
        reaction_to(driver, EventView::RequestPaused { request_id, resource_type, url })
            == answer_with(driver, CommandView::ContinueRequest { request_id }),
{
}

/// Under `BlockAll` a paused request that is typed as an image, or whose
/// URL ends in `.jpg`, `.png` or `.gif`, is failed: the answer is
/// `Fetch.failRequest` with the id of the request.
pub proof fn block_all_session_fails_images(
    driver: DriverView,
    request_id: Seq<char>,
    resource_type: Seq<char>,
    url: Seq<char>,
)
    requires
        driver.images == ImagePolicy::BlockAll,
        resource_type == "Image"@ || has_suffix(url, ".jpg"@) || has_suffix(url, ".png"@)
            || has_suffix(url, ".gif"@),
    ensures
        reaction_to(driver, EventView::RequestPaused { request_id, resource_type, url })
            == answer_with(driver, CommandView::FailRequest { request_id }),
{
}

/// Under `AllowCaptchaOnly` a paused request goes on if it is not typed as
/// an image, or if its URL names a CAPTCHA provider: the answer is
/// `Fetch.continueRequest` with the id of the request.
pub proof fn captcha_only_session_continues(
    driver: DriverView,
    request_id: Seq<char>,
    resource_type: Seq<char>,
    url: Seq<char>,
)
    requires
        driver.images == ImagePolicy::AllowCaptchaOnly,
        resource_type != "Image"@ || has_infix(url, "recaptcha.net"@) || has_infix(
            url,
            "hcaptcha.com"@,
        ) || has_infix(url, "google.com/recaptcha"@),
    ensures
        reaction_to(driver, EventView::RequestPaused { request_id, resource_type, url })
            == answer_with(driver, CommandView::ContinueRequest { request_id }),
{
}

/// Under `AllowCaptchaOnly` an image from anywhere else is failed.
pub proof fn captcha_only_session_fails_other_images(
    driver: DriverView,
    request_id: Seq<char>,
    url: Seq<char>,
)
    requires
        driver.images == ImagePolicy::AllowCaptchaOnly,
        !has_infix(url, "recaptcha.net"@),
        !has_infix(url, "hcaptcha.com"@),
        !has_infix(url, "google.com/recaptcha"@),
    ensures
        reaction_to(
            driver,
            EventView::RequestPaused { request_id, resource_type: "Image"@, url },
        ) == answer_with(driver, CommandView::FailRequest { request_id }),
{
}

/// A run answers every event with one reaction.
pub proof fn session_run_answers_each_event(driver: DriverView, events: Seq<EventView>)
    ensures
        session_run(driver, events).1.len() == events.len(),
    decreases events.len(),
{
    if events.len() > 0 {
        session_run_answers_each_event(driver, events.drop_last());
    }
}

/// The first `n` reactions of a run are the reactions to its first `n`
/// events.
pub proof fn session_run_prefix(driver: DriverView, events: Seq<EventView>, n: int)
    requires
        0 <= n <= events.len(),
    ensures
        session_run(driver, events.take(n)).1 == session_run(driver, events).1.take(n),
    decreases events.len(),
{
    session_run_answers_each_event(driver, events);
    if n == events.len() {
        assert(events.take(n) =~= events);
        assert(session_run(driver, events).1.take(n) =~= session_run(driver, events).1);
    } else {
        session_run_prefix(driver, events.drop_last(), n);
        session_run_answers_each_event(driver, events.drop_last());
        assert(events.drop_last().take(n) =~= events.take(n));
        assert(session_run(driver, events).1.take(n) =~= session_run(
            driver,
            events.drop_last(),
        ).1.take(n));
    }
}

/// Whatever a session has answered, it is still the session of its
/// profile: it stays well formed, keeps its credentials and its policy,
/// and its counter has not gone back. Every message that it sent in the
/// run has an id from the counter's value at the start up to, but not
/// including, its value at the end.
pub proof fn session_keeps_profile(driver: DriverView, events: Seq<EventView>)
    requires
        well_formed(driver),
    ensures
        well_formed(session_run(driver, events).0),
        session_run(driver, events).0.username == driver.username,
        session_run(driver, events).0.password == driver.password,
        session_run(driver, events).0.images == driver.images,
        session_run(driver, events).0.next_id >= driver.next_id,
        forall|i: int|
            0 <= i < events.len() && (#[trigger] session_run(driver, events).1[i]) is Send
                ==> driver.next_id <= session_run(driver, events).1[i]->Send_0.id
                < session_run(driver, events).0.next_id,
    decreases events.len(),
{
    session_run_answers_each_event(driver, events);
    if events.len() > 0 {
        let earlier = events.drop_last();
        session_keeps_profile(driver, earlier);
        session_run_answers_each_event(driver, earlier);
        let (before, reactions) = session_run(driver, earlier);
        match answer_command(events.last(), before.username, before.password, before.images) {
            Some(command) => {
                answer_is_one_message(before, command);
            },
            None => {},
        }
        assert forall|i: int|
            0 <= i < events.len() && (#[trigger] session_run(driver, events).1[i])
                is Send implies driver.next_id <= session_run(driver, events).1[i]->Send_0.id
            < session_run(driver, events).0.next_id by {
            if i < earlier.len() {
                assert(session_run(driver, events).1[i] == reactions[i]);
            }
        }
    }
}

/// No id is sent twice: of two messages that a session sends in a run, the
/// later one has the larger id.
pub proof fn session_ids_increase(driver: DriverView, events: Seq<EventView>, i: int, j: int)
    requires
        well_formed(driver),
        0 <= i < j < events.len(),
        session_run(driver, events).1[i] is Send,
        session_run(driver, events).1[j] is Send,
    ensures
        session_run(driver, events).1[i]->Send_0.id < session_run(driver, events).1[j]->Send_0.id,
{
    session_run_answers_each_event(driver, events);
    session_run_prefix(driver, events, j);
    session_run_prefix(driver, events, j + 1);
    session_run_answers_each_event(driver, events.take(j));
    session_run_answers_each_event(driver, events.take(j + 1));
    session_keeps_profile(driver, events.take(j));
    let before = session_run(driver, events.take(j));
    assert(before.1[i] == session_run(driver, events).1[i]);
    assert(events.take(j + 1).drop_last() =~= events.take(j));
    let upto = session_run(driver, events.take(j + 1));
    assert(upto.1[j] == session_run(driver, events).1[j]);
    assert(upto.1[j] == reaction_to(before.0, events[j]).1);
}

/// Answers do not wear out: however many events a session has answered, it
/// answers the next authentication challenge with one
/// `Fetch.continueWithAuth` that carries the id of the request and the
/// credentials of the profile.
pub proof fn auth_answer_after_any_run(
    driver: DriverView,
    earlier: Seq<EventView>,
    request_id: Seq<char>,
)
    requires
        well_formed(driver),
    ensures
        reaction_to(session_run(driver, earlier).0, EventView::AuthRequired { request_id })
            == answer_with(
            session_run(driver, earlier).0,
            CommandView::ContinueWithAuth {
                request_id,
                username: driver.username,
                password: driver.password,
            },
        ),
        well_formed(session_run(driver, earlier).0),
{
    session_keeps_profile(driver, earlier);
}

/// However many events a session has answered, it resolves the next paused
/// request by the policy of the profile, with the id of the request.
pub proof fn verdict_after_any_run(
    driver: DriverView,
    earlier: Seq<EventView>,
    request_id: Seq<char>,
    resource_type: Seq<char>,
    url: Seq<char>,
)
    requires
        well_formed(driver),
    ensures
        reaction_to(
            session_run(driver, earlier).0,
            EventView::RequestPaused { request_id, resource_type, url },
        ) == answer_with(
            session_run(driver, earlier).0,
            resolution(request_id, resource_type, url, driver.images),
        ),
        well_formed(session_run(driver, earlier).0),
{
    session_keeps_profile(driver, earlier);
}

/// Every paused request is resolved exactly once: the session answers a
/// `Fetch.requestPaused` with one message, which is a
/// `Fetch.continueRequest` or a `Fetch.failRequest` with the id of the
/// request, and which is the one command that the log gains; credentials
/// and policy stay. Only a session that has no id left to number the
/// command with sends nothing; it is lost.
pub proof fn paused_request_is_resolved_once(
    driver: DriverView,
    request_id: Seq<char>,
    resource_type: Seq<char>,
    url: Seq<char>,
)
    requires
        well_formed(driver),
    ensures
        ({
            let (after, reaction) = reaction_to(
                driver,
                EventView::RequestPaused { request_id, resource_type, url },
            );
            if has_ids(driver) {
                &&& reaction is Send
                &&& reaction->Send_0.command == (CommandView::ContinueRequest { request_id })
                    || reaction->Send_0.command == (CommandView::FailRequest { request_id })
                &&& reaction->Send_0.command == resolution(
                    request_id,
                    resource_type,
                    url,
                    driver.images,
                )
                &&& reaction->Send_0.id == driver.next_id
                &&& after.log == driver.log.push(reaction->Send_0.command)
                &&& after.username == driver.username
                &&& after.password == driver.password
                &&& after.images == driver.images
                &&& well_formed(after)
            } else {
                reaction == ReactionView::SessionLost && after == driver
            }
        }),
{
    answer_is_one_message(driver, resolution(request_id, resource_type, url, driver.images));
}

/// Every authentication challenge is answered exactly once with the
/// profile's credentials, whatever the session has sent before. Only a
/// session that has no id left to number the command with sends nothing;
/// it is lost.
pub proof fn auth_is_answered_with_credentials(driver: DriverView, request_id: Seq<char>)
    requires
        well_formed(driver),
    ensures
        ({
            let (after, reaction) = reaction_to(driver, EventView::AuthRequired { request_id });
            if has_ids(driver) {
                &&& reaction is Send
                &&& reaction->Send_0.command == (CommandView::ContinueWithAuth {
                    request_id,
                    username: driver.username,
                    password: driver.password,
                })
                &&& reaction->Send_0.id == driver.next_id
                &&& after.log == driver.log.push(reaction->Send_0.command)
                &&& after.username == driver.username
                &&& after.password == driver.password
                &&& after.images == driver.images
                &&& well_formed(after)
            } else {
                reaction == ReactionView::SessionLost && after == driver
            }
        }),
{
    answer_is_one_message(
        driver,
        CommandView::ContinueWithAuth {
            request_id,
            username: driver.username,
            password: driver.password,
        },
    );
}

/// A message that asks for no reply gets none, and the session stays as it
/// is.
pub proof fn other_events_send_nothing(driver: DriverView, event: EventView)
    requires
        event is PageLoaded || event is Unhandled || event is Unanswerable,
    ensures
        reaction_to(driver, event).0 == driver,
        !(reaction_to(driver, event).1 is Send),
{
}

} // verus!
