use potabrowser::chromium::chromium::ChromiumProfile;
use potabrowser::chromium::driver::{encode, Command, Driver};
use potabrowser::chromium::websocket::{
    devtools_url, is_list, resolve_endpoint, Event, Reaction, TransportError,
};

fn profile(images: u8) -> ChromiumProfile {
    let mut profile = ChromiumProfile::new("work", "/tmp/profiles/work");
    profile.images = images;
    profile.proxy.proxy_username = "alice".to_string();
    profile.proxy.proxy_password = "s3cr\"et".to_string();
    profile
}

fn parsed(text: &str) -> serde_json::Value {
    serde_json::from_str(text).unwrap()
}

#[test]
fn commands_are_written_as_compact_json() {
    assert_eq!(encode(1, &Command::PageEnable), "{\"id\":1,\"method\":\"Page.enable\"}");
    assert_eq!(
        encode(2, &Command::FetchEnable),
        "{\"id\":2,\"method\":\"Fetch.enable\",\"params\":{\"handleAuthRequests\":true,\"patterns\":[{\"requestStage\":\"Request\",\"urlPattern\":\"*\"}]}}"
    );
    assert_eq!(
        encode(30, &Command::PageNavigate { url: "https://example.com/?q=\"x\"".to_string() }),
        "{\"id\":30,\"method\":\"Page.navigate\",\"params\":{\"url\":\"https://example.com/?q=\\\"x\\\"\"}}"
    );
    assert_eq!(
        encode(18446744073709551615, &Command::ContinueRequest { request_id: "interception-job-1.0".to_string() }),
        "{\"id\":18446744073709551615,\"method\":\"Fetch.continueRequest\",\"params\":{\"requestId\":\"interception-job-1.0\"}}"
    );
    assert_eq!(
        encode(105, &Command::FailRequest { request_id: "r\n1".to_string() }),
        "{\"id\":105,\"method\":\"Fetch.failRequest\",\"params\":{\"errorReason\":\"BlockedByClient\",\"requestId\":\"r\\n1\"}}"
    );
    assert_eq!(
        encode(7, &Command::ContinueWithAuth { request_id: "9".to_string(), username: "u".to_string(), password: "p".to_string() }),
        "{\"id\":7,\"method\":\"Fetch.continueWithAuth\",\"params\":{\"authChallengeResponse\":{\"password\":\"p\",\"response\":\"ProvideCredentials\",\"username\":\"u\"},\"requestId\":\"9\"}}"
    );
    assert_eq!(
        encode(10, &Command::RuntimeEvaluate { expression: "1+1".to_string() }),
        "{\"id\":10,\"method\":\"Runtime.evaluate\",\"params\":{\"awaitPromise\":true,\"expression\":\"1+1\"}}"
    );
}

#[test]
fn session_enables_fetch_before_it_navigates() {
    let mut driver = Driver::new(&profile(1));
    assert!(!driver.is_fetch_enabled());
    assert!(!driver.is_page_enabled());
    assert_eq!(driver.next_id(), 1);
    assert_eq!(driver.image_policy(), potabrowser::policy::ImagePolicy::AllowAll);
    let messages = driver.start("https://ipscore.io");
    assert_eq!(messages.len(), 3);
    assert_eq!(messages[0].id, 1);
    assert_eq!(messages[1].id, 2);
    assert_eq!(messages[2].id, 3);
    assert!(matches!(messages[0].command, Command::PageEnable));
    assert!(matches!(messages[1].command, Command::FetchEnable));
    assert!(matches!(messages[2].command, Command::PageNavigate { .. }));
    let fetch = parsed(&messages[1].text);
    assert_eq!(fetch.pointer("/method").unwrap().as_str(), Some("Fetch.enable"));
    assert_eq!(fetch.pointer("/params/handleAuthRequests").unwrap().as_bool(), Some(true));
    assert_eq!(fetch.pointer("/params/patterns/0/urlPattern").unwrap().as_str(), Some("*"));
    assert_eq!(fetch.pointer("/params/patterns/0/requestStage").unwrap().as_str(), Some("Request"));
    let navigate = parsed(&messages[2].text);
    assert_eq!(navigate.pointer("/id").unwrap().as_u64(), Some(3));
    assert_eq!(navigate.pointer("/method").unwrap().as_str(), Some("Page.navigate"));
    assert_eq!(navigate.pointer("/params/url").unwrap().as_str(), Some("https://ipscore.io"));
    assert!(driver.is_fetch_enabled());
    assert!(driver.is_page_enabled());
    assert!(driver.can_send());
    assert_eq!(driver.next_id(), 4);
}

#[test]
fn ids_increase_over_all_commands() {
    let mut driver = Driver::new(&profile(1));
    assert_eq!(driver.enable_page_domain().id, 1);
    assert_eq!(driver.enable_fetch_domain().id, 2);
    assert_eq!(driver.handle_auth_required("a").id, 3);
    assert_eq!(driver.continue_request("b").id, 4);
    assert_eq!(driver.block_request("c").id, 5);
    assert_eq!(driver.navigate_to("https://example.com").id, 6);
    assert_eq!(driver.set_text_in_element("#q", "hello").id, 7);
    assert_eq!(driver.handle_request_paused("d", "Image", "x").id, 8);
}

#[test]
fn auth_challenge_gets_the_credentials() {
    let mut driver = Driver::new(&profile(1));
    for round in 0..3u64 {
        let text = "{\"method\":\"Fetch.authRequired\",\"params\":{\"requestId\":\"interception-job-7.0\",\"authChallenge\":{\"source\":\"Proxy\"}}}";
        match driver.handle_message(text) {
            Reaction::Send(message) => {
                assert_eq!(message.id, round + 1);
                let value = parsed(&message.text);
                assert_eq!(value.pointer("/id").unwrap().as_u64(), Some(round + 1));
                assert_eq!(value.pointer("/method").unwrap().as_str(), Some("Fetch.continueWithAuth"));
                assert_eq!(value.pointer("/params/requestId").unwrap().as_str(), Some("interception-job-7.0"));
                assert_eq!(value.pointer("/params/authChallengeResponse/response").unwrap().as_str(), Some("ProvideCredentials"));
                assert_eq!(value.pointer("/params/authChallengeResponse/username").unwrap().as_str(), Some("alice"));
                assert_eq!(value.pointer("/params/authChallengeResponse/password").unwrap().as_str(), Some("s3cr\"et"));
            }
            other => panic!("unexpected reaction {:?}", other),
        }
    }
}

fn paused(request_id: &str, resource_type: &str, url: &str) -> String {
    let mut request = serde_json::Map::new();
    request.insert("url".to_string(), serde_json::Value::String(url.to_string()));
    let mut params = serde_json::Map::new();
    params.insert("requestId".to_string(), serde_json::Value::String(request_id.to_string()));
    params.insert("resourceType".to_string(), serde_json::Value::String(resource_type.to_string()));
    params.insert("request".to_string(), serde_json::Value::Object(request));
    let mut message = serde_json::Map::new();
    message.insert("method".to_string(), serde_json::Value::String("Fetch.requestPaused".to_string()));
    message.insert("params".to_string(), serde_json::Value::Object(params));
    serde_json::Value::Object(message).to_string()
}

fn method_and_id(reaction: Reaction) -> (String, String) {
    match reaction {
        Reaction::Send(message) => {
            let value = parsed(&message.text);
            (
                value.pointer("/method").unwrap().as_str().unwrap().to_string(),
                value.pointer("/params/requestId").unwrap().as_str().unwrap().to_string(),
            )
        }
        other => panic!("unexpected reaction {:?}", other),
    }
}

#[test]
fn paused_requests_get_one_verdict_each() {
    let mut driver = Driver::new(&profile(0));
    let reaction = driver.handle_message(&paused("req-1", "Image", "https://example.com/logo"));
    assert_eq!(method_and_id(reaction), ("Fetch.failRequest".to_string(), "req-1".to_string()));
    let reaction = driver.handle_message(&paused("req-2", "Document", "https://example.com/"));
    assert_eq!(method_and_id(reaction), ("Fetch.continueRequest".to_string(), "req-2".to_string()));
    let reaction = driver.handle_message(&paused("req-3", "Other", "https://example.com/a.gif"));
    assert_eq!(method_and_id(reaction), ("Fetch.failRequest".to_string(), "req-3".to_string()));

    let mut driver = Driver::new(&profile(2));
    let reaction = driver.handle_message(&paused("req-4", "Image", "https://www.google.com/recaptcha/api2/x"));
    assert_eq!(method_and_id(reaction), ("Fetch.continueRequest".to_string(), "req-4".to_string()));
    let reaction = driver.handle_message(&paused("req-5", "Image", "https://example.com/x"));
    assert_eq!(method_and_id(reaction), ("Fetch.failRequest".to_string(), "req-5".to_string()));

    let mut driver = Driver::new(&profile(1));
    let reaction = driver.handle_message(&paused("req-6", "Image", "https://example.com/x.png"));
    assert_eq!(method_and_id(reaction), ("Fetch.continueRequest".to_string(), "req-6".to_string()));
}

#[test]
fn blocked_request_names_its_reason() {
    let mut driver = Driver::new(&profile(0));
    match driver.handle_message(&paused("req-1", "Image", "https://example.com/logo")) {
        Reaction::Send(message) => {
            assert!(matches!(message.command, Command::FailRequest { .. }));
            let value = parsed(&message.text);
            assert_eq!(value.pointer("/params/errorReason").unwrap().as_str(), Some("BlockedByClient"));
        }
        other => panic!("unexpected reaction {:?}", other),
    }
}

#[test]
fn paused_request_without_type_or_url_goes_on() {
    let mut driver = Driver::new(&profile(0));
    let reaction = driver.handle_message("{\"method\":\"Fetch.requestPaused\",\"params\":{\"requestId\":\"r\"}}");
    assert_eq!(method_and_id(reaction), ("Fetch.continueRequest".to_string(), "r".to_string()));
}

#[test]
fn events_without_reply() {
    let mut driver = Driver::new(&profile(0));
    assert!(matches!(driver.handle_message("{\"method\":\"Page.frameStoppedLoading\",\"params\":{}}"), Reaction::NavigationComplete));
    assert!(matches!(driver.handle_message("{\"method\":\"Page.loadEventFired\"}"), Reaction::NavigationComplete));
    assert!(matches!(driver.handle_message("{\"method\":\"Runtime.evaluate\"}"), Reaction::Unhandled));
    assert!(matches!(driver.handle_message("{\"id\":1,\"result\":{}}"), Reaction::Unhandled));
    assert!(matches!(driver.handle_message("[1,2]"), Reaction::Unhandled));
    assert!(matches!(driver.handle_message("{\"method\":\"Fetch.requestPaused\",\"params\":{}}"), Reaction::Unanswerable));
    assert!(matches!(driver.handle_message("{\"method\":\"Fetch.authRequired\"}"), Reaction::Unanswerable));
    assert!(matches!(driver.handle_message("{\"method\":\"Fetch.authRequired\",\"params\":{\"requestId\":5}}"), Reaction::Unanswerable));
    assert_eq!(driver.enable_page_domain().id, 1);
}

#[test]
fn broken_frame_loses_the_session() {
    let mut driver = Driver::new(&profile(0));
    assert!(matches!(driver.handle_message("{\"method\":"), Reaction::SessionLost));
    assert!(matches!(driver.handle_message(""), Reaction::SessionLost));
    assert!(Event::decode("not json").is_none());
}

#[test]
fn events_are_classified() {
    assert!(matches!(Event::decode("{\"method\":\"Page.loadEventFired\"}"), Some(Event::PageLoaded)));
    match Event::decode("{\"method\":\"Fetch.requestPaused\",\"params\":{\"requestId\":\"a\",\"resourceType\":\"Image\",\"request\":{\"url\":\"u\"}}}") {
        Some(Event::RequestPaused { request_id, resource_type, url }) => {
            assert_eq!(request_id, "a");
            assert_eq!(resource_type, "Image");
            assert_eq!(url, "u");
        }
        other => panic!("unexpected event {:?}", other),
    }
    match Event::of_fields(Some("Fetch.authRequired".to_string()), Some("b".to_string()), None, None) {
        Event::AuthRequired { request_id } => assert_eq!(request_id, "b"),
        other => panic!("unexpected event {:?}", other),
    }
    assert!(matches!(Event::of_fields(None, Some("b".to_string()), None, None), Event::Unhandled));
}

#[test]
fn set_text_builds_the_script() {
    let mut driver = Driver::new(&profile(1));
    let message = driver.set_text_in_element("#user", "bob");
    let value = parsed(&message.text);
    assert_eq!(value.pointer("/method").unwrap().as_str(), Some("Runtime.evaluate"));
    assert_eq!(value.pointer("/params/awaitPromise").unwrap().as_bool(), Some(true));
    assert_eq!(
        value.pointer("/params/expression").unwrap().as_str(),
        Some("document.querySelector('#user').value = 'bob';")
    );
}

#[test]
fn endpoint_is_the_first_page() {
    assert_eq!(devtools_url(9222), "http://127.0.0.1:9222/json");
    assert_eq!(devtools_url(0), "http://127.0.0.1:0/json");
    assert_eq!(devtools_url(65535), "http://127.0.0.1:65535/json");
    let body = "[{\"id\":\"A\",\"webSocketDebuggerUrl\":\"ws://127.0.0.1:9222/devtools/page/A\"},{\"webSocketDebuggerUrl\":\"ws://other\"}]";
    assert_eq!(resolve_endpoint(body).unwrap(), "ws://127.0.0.1:9222/devtools/page/A");
    assert_eq!(
        resolve_endpoint(" \n [ {\"webSocketDebuggerUrl\":\"ws://a\"} ]").unwrap(),
        "ws://a"
    );
    assert_eq!(resolve_endpoint("[]").unwrap_err(), TransportError::EndpointUnavailable);
    assert_eq!(
        resolve_endpoint("{\"0\":{\"webSocketDebuggerUrl\":\"ws://x\"}}").unwrap_err(),
        TransportError::EndpointUnavailable
    );
    assert_eq!(resolve_endpoint("\"[\"").unwrap_err(), TransportError::EndpointUnavailable);
    assert_eq!(resolve_endpoint("[{\"webSocketDebuggerUrl\":\"ws://a\"}").unwrap_err(), TransportError::EndpointUnavailable);
    assert_eq!(resolve_endpoint("[{\"webSocketDebuggerUrl\":5}]").unwrap_err(), TransportError::EndpointUnavailable);
    assert_eq!(resolve_endpoint("[{\"id\":\"A\"}]").unwrap_err(), TransportError::EndpointUnavailable);
    assert_eq!(resolve_endpoint("<html>").unwrap_err(), TransportError::EndpointUnavailable);
    assert_eq!(resolve_endpoint("").unwrap_err(), TransportError::EndpointUnavailable);
}

#[test]
fn transport_errors_are_told_apart() {
    assert_ne!(TransportError::EndpointUnavailable, TransportError::ConnectFailed);
    assert_eq!(TransportError::ConnectFailed, TransportError::ConnectFailed);
}

#[test]
fn lists_are_told_by_their_first_character() {
    assert!(is_list("[]"));
    assert!(is_list(" \t\r\n[1]"));
    assert!(!is_list("{\"0\":[]}"));
    assert!(!is_list(""));
    assert!(!is_list("   "));
    assert!(!is_list("x["));
}

#[test]
fn ids_are_never_sent_twice() {
    let mut driver = Driver::new(&profile(2));
    let mut seen = Vec::new();
    for frame in [
        paused("a", "Image", "https://example.com/x"),
        "{\"method\":\"Fetch.authRequired\",\"params\":{\"requestId\":\"a\"}}".to_string(),
        "{\"method\":\"Page.loadEventFired\"}".to_string(),
        paused("a", "Image", "https://example.com/x"),
        paused("b", "Document", "https://example.com/"),
    ] {
        if let Reaction::Send(message) = driver.handle_message(&frame) {
            assert!(seen.iter().all(|id| *id < message.id));
            seen.push(message.id);
        }
    }
    assert_eq!(seen, vec![1, 2, 3, 4]);
    let by_hand = driver.send(Command::ContinueRequest { request_id: "c".to_string() });
    assert_eq!(by_hand.id, 5);
}
