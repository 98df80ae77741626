//! The DevTools command driver of one session.
//!
//! The driver writes the commands of a session and numbers them. It owns no
//! socket: each operation returns the message to send, and the caller sends
//! it before it asks for the next.

use vstd::prelude::*;
use vstd::string::StringExecFns;
use crate::chromium::chromium::ChromiumProfile;
use crate::codec::{json_quote, json_string_literal};
use crate::policy::{decide, verdict, Decision, ImagePolicy};
use crate::text::{append_decimal, decimal_text};

verus! {

/// A command of the DevTools protocol, as far as a session issues it.
#[derive(Debug)]
pub enum Command {
    /// `Page.enable`.
    PageEnable,
    /// `Fetch.enable`, for every URL at the request stage, with
    /// authentication challenges handed to the session.
    FetchEnable,
    /// `Page.navigate`.
    PageNavigate { url: String },
    /// `Fetch.continueWithAuth`, providing credentials.
    ContinueWithAuth { request_id: String, username: String, password: String },
    /// `Fetch.continueRequest`.
    ContinueRequest { request_id: String },
    /// `Fetch.failRequest`, with the reason `BlockedByClient`.
    FailRequest { request_id: String },
    /// `Runtime.evaluate`, awaiting the promise.
    RuntimeEvaluate { expression: String },
}

/// The mathematical content of a `Command`.
pub enum CommandView {
    PageEnable,
    FetchEnable,
    PageNavigate { url: Seq<char> },
    ContinueWithAuth { request_id: Seq<char>, username: Seq<char>, password: Seq<char> },
    ContinueRequest { request_id: Seq<char> },
    FailRequest { request_id: Seq<char> },
    RuntimeEvaluate { expression: Seq<char> },
}

impl View for Command {
    type V = CommandView;

    open spec fn view(&self) -> CommandView {
        match self {
            Command::PageEnable => CommandView::PageEnable,
            Command::FetchEnable => CommandView::FetchEnable,
            Command::PageNavigate { url } => CommandView::PageNavigate { url: url@ },
            Command::ContinueWithAuth {
                request_id,
                username,
                password,
            } => CommandView::ContinueWithAuth {
                request_id: request_id@,
                username: username@,
                password: password@,
            },
            Command::ContinueRequest { request_id } => CommandView::ContinueRequest {
                request_id: request_id@,
            },
            Command::FailRequest { request_id } => CommandView::FailRequest {
                request_id: request_id@,
            },
            Command::RuntimeEvaluate { expression } => CommandView::RuntimeEvaluate {
                expression: expression@,
            },
        }
    }
}

/// A numbered command with the text that goes over the socket.
#[derive(Debug)]
pub struct Outgoing {
    pub id: u64,
    pub command: Command,
    pub text: String,
}

/// The mathematical content of an `Outgoing`.
pub struct OutgoingView {
    pub id: u64,
    pub command: CommandView,
    pub text: Seq<char>,
}

impl View for Outgoing {
    type V = OutgoingView;

    open spec fn view(&self) -> OutgoingView {
        OutgoingView { id: self.id, command: self.command@, text: self.text@ }
    }
}

/// The members of a command's message after its id: the method and, where
/// the command has any, the parameters. Members stand in the order of their
/// names, without white space.
pub open spec fn command_members(command: CommandView) -> Seq<char> {
    match command {
        CommandView::PageEnable => "\"method\":\"Page.enable\""@,
        CommandView::FetchEnable =>
            "\"method\":\"Fetch.enable\",\"params\":{\"handleAuthRequests\":true,\"patterns\":[{\"requestStage\":\"Request\",\"urlPattern\":\"*\"}]}"@,
        CommandView::PageNavigate { url } => "\"method\":\"Page.navigate\",\"params\":{\"url\":"@
            + json_string_literal(url) + "}"@,
        CommandView::ContinueWithAuth { request_id, username, password } =>
            "\"method\":\"Fetch.continueWithAuth\",\"params\":{\"authChallengeResponse\":{\"password\":"@
            + json_string_literal(password) + ",\"response\":\"ProvideCredentials\",\"username\":"@
            + json_string_literal(username) + "},\"requestId\":"@ + json_string_literal(
            request_id,
        ) + "}"@,
        CommandView::ContinueRequest { request_id } =>
            "\"method\":\"Fetch.continueRequest\",\"params\":{\"requestId\":"@
            + json_string_literal(request_id) + "}"@,
        CommandView::FailRequest { request_id } =>
            "\"method\":\"Fetch.failRequest\",\"params\":{\"errorReason\":\"BlockedByClient\",\"requestId\":"@
            + json_string_literal(request_id) + "}"@,
        CommandView::RuntimeEvaluate { expression } =>
            "\"method\":\"Runtime.evaluate\",\"params\":{\"awaitPromise\":true,\"expression\":"@
            + json_string_literal(expression) + "}"@,
    }
}

/// The message of a command: one JSON object with the id, the method and
/// the parameters.
pub open spec fn message_text(id: u64, command: CommandView) -> Seq<char> {
    "{\"id\":"@ + decimal_text(id as nat) + ","@ + command_members(command) + "}"@
}

/// The script that sets the value of the element that a selector finds.
pub open spec fn set_value_script(selector: Seq<char>, text: Seq<char>) -> Seq<char> {
    "document.querySelector('"@ + selector + "').value = '"@ + text + "';"@
}

/// Writes the message of a command.
pub fn encode(id: u64, command: &Command) -> (text: String)
    ensures
        text@ == message_text(id, command@),
{
    let mut text = String::from_str("{\"id\":");
    append_decimal(&mut text, id);
    text.append(",");
    let ghost head = text@;
    match command {
        Command::PageEnable => {
            text.append("\"method\":\"Page.enable\"");
        },
        Command::FetchEnable => {
            text.append(
                "\"method\":\"Fetch.enable\",\"params\":{\"handleAuthRequests\":true,\"patterns\":[{\"requestStage\":\"Request\",\"urlPattern\":\"*\"}]}",
            );
        },
        Command::PageNavigate { url } => {
            text.append("\"method\":\"Page.navigate\",\"params\":{\"url\":");
            text.append(json_quote(url.as_str()).as_str());
            text.append("}");
        },
        Command::ContinueWithAuth { request_id, username, password } => {
            text.append(
                "\"method\":\"Fetch.continueWithAuth\",\"params\":{\"authChallengeResponse\":{\"password\":",
            );
            text.append(json_quote(password.as_str()).as_str());
            text.append(",\"response\":\"ProvideCredentials\",\"username\":");
            text.append(json_quote(username.as_str()).as_str());
            text.append("},\"requestId\":");
            text.append(json_quote(request_id.as_str()).as_str());
            text.append("}");
        },
        Command::ContinueRequest { request_id } => {
            text.append("\"method\":\"Fetch.continueRequest\",\"params\":{\"requestId\":");
            text.append(json_quote(request_id.as_str()).as_str());
            text.append("}");
        },
        Command::FailRequest { request_id } => {
            text.append(
                "\"method\":\"Fetch.failRequest\",\"params\":{\"errorReason\":\"BlockedByClient\",\"requestId\":",
            );
            text.append(json_quote(request_id.as_str()).as_str());
            text.append("}");
        },
        Command::RuntimeEvaluate { expression } => {
            text.append(
                "\"method\":\"Runtime.evaluate\",\"params\":{\"awaitPromise\":true,\"expression\":",
            );
            text.append(json_quote(expression.as_str()).as_str());
            text.append("}");
        },
    }
    assert(text@ =~= head + command_members(command@));
    text.append("}");
    assert(text@ =~= message_text(id, command@));
    text
}

/// The command driver of one session. Its state changes through its
/// operations only, which keep it well formed.
pub struct Driver {
    next_id: u64,
    page_enabled: bool,
    fetch_enabled: bool,
    username: String,
    password: String,
    images: ImagePolicy,
    log: Ghost<Seq<CommandView>>,
}

/// The mathematical content of a `Driver`.
pub struct DriverView {
    /// The id of the next command. The first command of a session has id 1.
    pub next_id: u64,
    /// Whether `Page.enable` was issued.
    pub page_enabled: bool,
    /// Whether `Fetch.enable` was issued.
    pub fetch_enabled: bool,
    /// The credentials of the profile's proxy.
    pub username: Seq<char>,
    pub password: Seq<char>,
    /// The profile's image policy.
    pub images: ImagePolicy,
    /// Every command issued so far, in order.
    pub log: Seq<CommandView>,
}

impl View for Driver {
    type V = DriverView;

    closed spec fn view(&self) -> DriverView {
        DriverView {
            next_id: self.next_id,
            page_enabled: self.page_enabled,
            fetch_enabled: self.fetch_enabled,
            username: self.username@,
            password: self.password@,
            images: self.images,
            log: self.log@,
        }
    }
}

/// The command stands among the first `n` commands of a log.
pub open spec fn issued_before(log: Seq<CommandView>, command: CommandView, n: int) -> bool {
    exists|i: int| 0 <= i < n && i < log.len() && #[trigger] log[i] == command
}

/// The state of a session that keeps its promises: the commands are
/// numbered from 1 in the order of the log, the flags say whether
/// `Page.enable` and `Fetch.enable` were issued, and before every
/// `Page.navigate` stands a `Page.enable` and a `Fetch.enable`.
pub open spec fn well_formed(driver: DriverView) -> bool {
    &&& driver.next_id == driver.log.len() + 1
    &&& driver.page_enabled == issued_before(
        driver.log,
        CommandView::PageEnable,
        driver.log.len() as int,
    )
    &&& driver.fetch_enabled == issued_before(
        driver.log,
        CommandView::FetchEnable,
        driver.log.len() as int,
    )
    &&& forall|j: int|
        0 <= j < driver.log.len() && (#[trigger] driver.log[j]) is PageNavigate ==> issued_before(
            driver.log,
            CommandView::PageEnable,
            j,
        ) && issued_before(driver.log, CommandView::FetchEnable, j)
}

/// The session can still number a command.
pub open spec fn has_ids(driver: DriverView) -> bool {
    driver.next_id < u64::MAX
}

/// The session may issue the command: no navigation before `Page.enable`
/// and `Fetch.enable`.
pub open spec fn may_issue(driver: DriverView, command: CommandView) -> bool {
    command is PageNavigate ==> driver.page_enabled && driver.fetch_enabled
}

/// The state of a session after it has issued a command, and the message
/// that carries the command.
pub open spec fn issue(driver: DriverView, command: CommandView) -> (DriverView, OutgoingView) {
    (
        DriverView {
            next_id: (driver.next_id + 1) as u64,
            page_enabled: driver.page_enabled || command == CommandView::PageEnable,
            fetch_enabled: driver.fetch_enabled || command == CommandView::FetchEnable,
            username: driver.username,
            password: driver.password,
            images: driver.images,
            log: driver.log.push(command),
        },
        OutgoingView {
            id: driver.next_id,
            command,
            text: message_text(driver.next_id, command),
        },
    )
}

/// The command that resolves a paused request under a policy.
pub open spec fn resolution(
    request_id: Seq<char>,
    resource_type: Seq<char>,
    url: Seq<char>,
    policy: ImagePolicy,
) -> CommandView {
    match verdict(resource_type, url, policy) {
        Decision::Continue => CommandView::ContinueRequest { request_id },
        Decision::Block => CommandView::FailRequest { request_id },
    }
}

/// A command that was issued before stays issued before when the log grows.
pub proof fn issued_before_grows(
    log: Seq<CommandView>,
    command: CommandView,
    n: int,
    longer: Seq<CommandView>,
    m: int,
)
    requires
        issued_before(log, command, n),
        n <= m,
        log.len() <= longer.len(),
        forall|i: int| 0 <= i < log.len() ==> longer[i] == log[i],
    ensures
        issued_before(longer, command, m),
{
    let i = choose|i: int| 0 <= i < n && i < log.len() && #[trigger] log[i] == command;
    assert(longer[i] == command);
}

/// Whether a command was issued, after one more command.
pub proof fn issued_before_push(log: Seq<CommandView>, command: CommandView, last: CommandView)
    ensures
        issued_before(log.push(last), command, log.len() as int + 1) == (issued_before(
            log,
            command,
            log.len() as int,
        ) || last == command),
{
    let longer = log.push(last);
    let n = log.len() as int;
    if issued_before(log, command, n) {
        issued_before_grows(log, command, n, longer, n + 1);
    }
    if last == command {
        assert(longer[n] == command);
    }
    if issued_before(longer, command, n + 1) {
        let i = choose|i: int| 0 <= i < n + 1 && i < longer.len() && #[trigger] longer[i] == command;
        if i < n {
            assert(log[i] == command);
        }
    }
}

/// Issuing a command that the session may issue keeps the session well
/// formed.
pub proof fn issue_keeps_well_formed(driver: DriverView, command: CommandView)
    requires
        well_formed(driver),
        has_ids(driver),
        may_issue(driver, command),
    ensures
        well_formed(issue(driver, command).0),
{
    let after = issue(driver, command).0;
    let n = driver.log.len() as int;
    issued_before_push(driver.log, CommandView::PageEnable, command);
    issued_before_push(driver.log, CommandView::FetchEnable, command);
    assert forall|j: int|
        0 <= j < after.log.len() && (#[trigger] after.log[j]) is PageNavigate implies issued_before(
        after.log,
        CommandView::PageEnable,
        j,
    ) && issued_before(after.log, CommandView::FetchEnable, j) by {
        if j < n {
            assert(driver.log[j] == after.log[j]);
            issued_before_grows(driver.log, CommandView::PageEnable, j, after.log, j);
            issued_before_grows(driver.log, CommandView::FetchEnable, j, after.log, j);
        } else {
            issued_before_grows(driver.log, CommandView::PageEnable, n, after.log, j);
            issued_before_grows(driver.log, CommandView::FetchEnable, n, after.log, j);
        }
    }
}

impl Driver {
    /// The driver for a new session on a profile: no command issued yet.
    pub fn new(profile: &ChromiumProfile) -> (driver: Driver)
        ensures
            well_formed(driver@),
            driver@.next_id == 1,
            !driver@.page_enabled,
            !driver@.fetch_enabled,
            driver@.log.len() == 0,
            driver@.username == profile.proxy.proxy_username@,
            driver@.password == profile.proxy.proxy_password@,
            driver@.images == ImagePolicy::of_code(profile.images),
    {
        Driver {
            next_id: 1,
            page_enabled: false,
            fetch_enabled: false,
            username: profile.proxy.proxy_username.clone(),
            password: profile.proxy.proxy_password.clone(),
            images: ImagePolicy::from_code(profile.images),
            log: Ghost(Seq::empty()),
        }
    }

    /// The id that the next command gets.
    pub fn next_id(&self) -> (id: u64)
        ensures
            id == self@.next_id,
    {
        self.next_id
    }

    /// The profile's image policy.
    pub fn image_policy(&self) -> (policy: ImagePolicy)
        ensures
            policy == self@.images,
    {
        self.images
    }

    /// Whether the session can still number a command.
    pub fn can_send(&self) -> (r: bool)
        ensures
            r == has_ids(self@),
    {
        self.next_id < u64::MAX
    }

    /// Whether `Page.enable` was issued.
    pub fn is_page_enabled(&self) -> (r: bool)
        ensures
            r == self@.page_enabled,
    {
        self.page_enabled
    }

    /// Whether `Fetch.enable` was issued.
    pub fn is_fetch_enabled(&self) -> (r: bool)
        ensures
            r == self@.fetch_enabled,
    {
        self.fetch_enabled
    }

    /// Issues a command: numbers it with the session's next id and writes
    /// its message.
    pub fn send(&mut self, command: Command) -> (message: Outgoing)
        requires
            well_formed(old(self)@),
            has_ids(old(self)@),
            may_issue(old(self)@, command@),
        ensures
            (final(self)@, message@) == issue(old(self)@, command@),
            well_formed(final(self)@),
    {
        proof {
            issue_keeps_well_formed(self@, command@);
        }
        let id = self.next_id;
        let text = encode(id, &command);
        self.next_id = id + 1;
        match command {
            Command::PageEnable => {
                self.page_enabled = true;
            },
            Command::FetchEnable => {
                self.fetch_enabled = true;
            },
            _ => {},
        }
        self.log = Ghost(self.log@.push(command@));
        Outgoing { id, command, text }
    }

    /// Issues `Page.enable`.
    pub fn enable_page_domain(&mut self) -> (message: Outgoing)
        requires
            well_formed(old(self)@),
            has_ids(old(self)@),
        ensures
            (final(self)@, message@) == issue(old(self)@, CommandView::PageEnable),
            well_formed(final(self)@),
            final(self)@.page_enabled,
    {
        self.send(Command::PageEnable)
    }

    /// Issues `Fetch.enable` with the pattern that matches every URL at the
    /// request stage, and with authentication challenges handed to the
    /// session.
    pub fn enable_fetch_domain(&mut self) -> (message: Outgoing)
        requires
            well_formed(old(self)@),
            has_ids(old(self)@),
        ensures
            (final(self)@, message@) == issue(old(self)@, CommandView::FetchEnable),
            well_formed(final(self)@),
            final(self)@.fetch_enabled,
    {
        self.send(Command::FetchEnable)
    }

    /// Answers an authentication challenge with the profile's credentials.
    pub fn handle_auth_required(&mut self, request_id: &str) -> (message: Outgoing)
        requires
            well_formed(old(self)@),
            has_ids(old(self)@),
        ensures
            (final(self)@, message@) == issue(
                old(self)@,
                CommandView::ContinueWithAuth {
                    request_id: request_id@,
                    username: old(self)@.username,
                    password: old(self)@.password,
                },
            ),
            well_formed(final(self)@),
    {
        let command = Command::ContinueWithAuth {
            request_id: String::from_str(request_id),
            username: self.username.clone(),
            password: self.password.clone(),
        };
        self.send(command)
    }

    /// Resolves a paused request: it is failed where the profile's image
    /// policy blocks it, and goes on otherwise.
    pub fn handle_request_paused(&mut self, request_id: &str, resource_type: &str, url: &str) -> (message:
        Outgoing)
        requires
            well_formed(old(self)@),
            has_ids(old(self)@),
        ensures
            (final(self)@, message@) == issue(
                old(self)@,
                resolution(request_id@, resource_type@, url@, old(self)@.images),
            ),
            well_formed(final(self)@),
    {
        match decide(resource_type, url, self.images) {
            Decision::Block => self.block_request(request_id),
            Decision::Continue => self.continue_request(request_id),
        }
    }

    /// Fails a paused request with the reason `BlockedByClient`.
    pub fn block_request(&mut self, request_id: &str) -> (message: Outgoing)
        requires
            well_formed(old(self)@),
            has_ids(old(self)@),
        ensures
            (final(self)@, message@) == issue(
                old(self)@,
                CommandView::FailRequest { request_id: request_id@ },
            ),
            well_formed(final(self)@),
    {
        self.send(Command::FailRequest { request_id: String::from_str(request_id) })
    }

    /// Lets a paused request go on.
    pub fn continue_request(&mut self, request_id: &str) -> (message: Outgoing)
        requires
            well_formed(old(self)@),
            has_ids(old(self)@),
        ensures
            (final(self)@, message@) == issue(
                old(self)@,
                CommandView::ContinueRequest { request_id: request_id@ },
            ),
            well_formed(final(self)@),
    {
        self.send(Command::ContinueRequest { request_id: String::from_str(request_id) })
    }

    /// Issues `Page.navigate`. A session navigates only after it has issued
    /// `Page.enable` and `Fetch.enable`: a request that the navigation fires
    /// would not be intercepted otherwise.
    pub fn navigate_to(&mut self, url: &str) -> (message: Outgoing)
        requires
            well_formed(old(self)@),
            has_ids(old(self)@),
            old(self)@.page_enabled,
            old(self)@.fetch_enabled,
        ensures
            (final(self)@, message@) == issue(old(self)@, CommandView::PageNavigate { url: url@ }),
            well_formed(final(self)@),
    {
        self.send(Command::PageNavigate { url: String::from_str(url) })
    }

    /// Issues the `Runtime.evaluate` that sets the value of the element
    /// that a selector finds.
    pub fn set_text_in_element(&mut self, element_selector: &str, text: &str) -> (message: Outgoing)
        requires
            well_formed(old(self)@),
            has_ids(old(self)@),
        ensures
            (final(self)@, message@) == issue(
                old(self)@,
                CommandView::RuntimeEvaluate {
                    expression: set_value_script(element_selector@, text@),
                },
            ),
            well_formed(final(self)@),
    {
        let mut expression = String::from_str("document.querySelector('");
        expression.append(element_selector);
        expression.append("').value = '");
        expression.append(text);
        expression.append("';");
        assert(expression@ =~= set_value_script(element_selector@, text@));
        self.send(Command::RuntimeEvaluate { expression })
    }
}

/// The ids of a session never repeat: the command at position `j` of the
/// log was issued with id `j + 1`, and the next command gets an id above
/// all of them.
pub proof fn ids_are_positions(driver: DriverView, command: CommandView)
    requires
        well_formed(driver),
        has_ids(driver),
    ensures
        issue(driver, command).1.id == driver.log.len() + 1,
        issue(driver, command).0.next_id == issue(driver, command).1.id + 1,
        issue(driver, command).0.log.last() == command,
{
}

/// The domains are enabled first: in the log of a well-formed session a
/// `Fetch.enable` and a `Page.enable` stand before every `Page.navigate`.
pub proof fn fetch_enable_precedes_navigation(driver: DriverView, j: int)
    requires
        well_formed(driver),
        0 <= j < driver.log.len(),
        driver.log[j] is PageNavigate,
    ensures
        exists|i: int| 0 <= i < j && #[trigger] driver.log[i] == CommandView::FetchEnable,
        exists|i: int| 0 <= i < j && #[trigger] driver.log[i] == CommandView::PageEnable,
{
    assert(issued_before(driver.log, CommandView::FetchEnable, j));
    assert(issued_before(driver.log, CommandView::PageEnable, j));
}

/// A paused request is resolved by one command that carries its id:
/// `Fetch.continueRequest` or `Fetch.failRequest`, whatever the policy.
pub proof fn resolution_carries_request_id(
    request_id: Seq<char>,
    resource_type: Seq<char>,
    url: Seq<char>,
    policy: ImagePolicy,
)
    ensures
        resolution(request_id, resource_type, url, policy) == (CommandView::ContinueRequest {
            request_id,
        }) || resolution(request_id, resource_type, url, policy) == (CommandView::FailRequest {
            request_id,
        }),
        resolution(request_id, resource_type, url, policy) is FailRequest <==> verdict(
            resource_type,
            url,
            policy,
        ) == Decision::Block,
{
}

} // verus!
