use cat_bot::handler::{job_of, reply_for_outcome, Command, CommandEvent, CommandHandler, HandlerStep, Job, ReplyAction};
use cat_bot::provider::{
    select_first_image, Config, ConfigFault, FetchError, FetchReply, ImageProvider,
    ImageSearchResult, TransportFault,
};

const NOTICE: &str = "Sorry, could not fetch a cat image right now.";

fn entry(id: &str, url: &str) -> ImageSearchResult {
    ImageSearchResult { id: id.to_string(), url: url.to_string(), width: 100, height: 100 }
}

fn provider(key: Option<&str>) -> ImageProvider {
    ImageProvider::new(Config { api_key: key.map(|k| k.to_string()) })
}

fn handler(key: Option<&str>) -> CommandHandler {
    CommandHandler::new(provider(key))
}

fn ok_reply(entries: Vec<ImageSearchResult>) -> FetchReply {
    FetchReply::Received { status: 200, body: Ok(entries) }
}

fn notice(chat: i64) -> ReplyAction {
    ReplyAction::SendText { chat, text: NOTICE.to_string() }
}

#[test]
fn first_entry_url_is_returned() {
    let p = provider(Some("key"));
    let r = p.finish_fetch(&ok_reply(vec![
        entry("a", "https://example.com/first.jpg"),
        entry("b", "https://example.com/second.jpg"),
    ]));
    assert_eq!(r, Ok("https://example.com/first.jpg".to_string()));
}

#[test]
fn url_is_kept_as_parsed() {
    let p = provider(Some("key"));
    let r = p.finish_fetch(&ok_reply(vec![entry("a", "https://cdn2.thecatapi.com/images/abc.jpg")]));
    assert_eq!(r, Ok("https://cdn2.thecatapi.com/images/abc.jpg".to_string()));
}

#[test]
fn url_is_serialized_by_the_parser() {
    let r = select_first_image(&vec![entry("a", "HTTPS://Example.COM")]);
    assert_eq!(r, Ok("https://example.com/".to_string()));
}

#[test]
fn empty_list_is_empty_response_error() {
    let p = provider(Some("key"));
    assert_eq!(p.finish_fetch(&ok_reply(vec![])), Err(FetchError::EmptyResponseError));
    assert_eq!(select_first_image(&vec![]), Err(FetchError::EmptyResponseError));
}

#[test]
fn invalid_url_carries_the_text() {
    let p = provider(Some("key"));
    match p.finish_fetch(&ok_reply(vec![entry("1", "not a url")])) {
        Err(FetchError::InvalidURLError { url, reason }) => {
            assert_eq!(url, "not a url");
            assert!(!reason.is_empty());
        }
        other => panic!("unexpected outcome {:?}", other),
    }
}

#[test]
fn only_the_first_entry_is_parsed() {
    let p = provider(Some("key"));
    let r = p.finish_fetch(&ok_reply(vec![entry("1", "not a url"), entry("2", "https://example.com/x.jpg")]));
    assert!(matches!(r, Err(FetchError::InvalidURLError { .. })));
}

#[test]
fn missing_key_is_config_error() {
    let p = provider(None);
    assert!(matches!(
        p.prepare_request(),
        Err(FetchError::ConfigError(ConfigFault::MissingCredential))
    ));
}

#[test]
fn empty_key_is_config_error() {
    let p = provider(Some(""));
    assert!(matches!(
        p.prepare_request(),
        Err(FetchError::ConfigError(ConfigFault::MissingCredential))
    ));
}

#[test]
fn key_with_control_character_is_invalid() {
    let p = provider(Some("abc\ndef"));
    assert!(matches!(
        p.prepare_request(),
        Err(FetchError::ConfigError(ConfigFault::InvalidCredential))
    ));
    let p = provider(Some("abc\u{7f}"));
    assert!(matches!(
        p.prepare_request(),
        Err(FetchError::ConfigError(ConfigFault::InvalidCredential))
    ));
}

#[test]
fn key_with_tab_is_accepted() {
    let p = provider(Some("ab\tcd"));
    assert!(p.prepare_request().is_ok());
}

#[test]
fn request_carries_endpoint_and_key_header() {
    let p = provider(Some("abc123"));
    let req = p.prepare_request().unwrap();
    assert_eq!(req.url, "https://api.thecatapi.com/v1/images/search");
    assert_eq!(req.header_name, "x-api-key");
    assert_eq!(req.api_key, "abc123");
    assert_eq!(req.header_value.to_str().unwrap(), "abc123");
}

#[test]
fn missing_key_makes_no_request() {
    let h = handler(None);
    let ev = CommandEvent { chat: 7, command: Command::Cat };
    match h.handle(&ev) {
        HandlerStep::Reply(a) => assert_eq!(a, notice(7)),
        HandlerStep::Fetch(_) => panic!("a request was asked for"),
    }
}

#[test]
fn key_present_asks_for_request() {
    let h = handler(Some("key"));
    let ev = CommandEvent { chat: 7, command: Command::Cat };
    assert!(matches!(h.handle(&ev), HandlerStep::Fetch(_)));
}

#[test]
fn unreachable_service_is_transport_error() {
    let p = provider(Some("key"));
    assert_eq!(
        p.finish_fetch(&FetchReply::Unreachable("connection refused".to_string())),
        Err(FetchError::TransportError(TransportFault::Connection("connection refused".to_string())))
    );
}

#[test]
fn status_outside_success_is_transport_error() {
    let p = provider(Some("key"));
    for status in [199u16, 300, 404, 500] {
        let r = p.finish_fetch(&FetchReply::Received { status, body: Ok(vec![entry("1", "https://example.com/a.jpg")]) });
        assert_eq!(r, Err(FetchError::TransportError(TransportFault::Status(status))));
    }
    let r = p.finish_fetch(&FetchReply::Received { status: 299, body: Ok(vec![entry("1", "https://example.com/a.jpg")]) });
    assert_eq!(r, Ok("https://example.com/a.jpg".to_string()));
}

#[test]
fn undecodable_body_is_decode_error() {
    let p = provider(Some("key"));
    let r = p.finish_fetch(&FetchReply::Received { status: 200, body: Err("expected an array".to_string()) });
    assert_eq!(r, Err(FetchError::DecodeError("expected an array".to_string())));
}

#[test]
fn every_failure_gets_one_notice() {
    let h = handler(Some("key"));
    let ev = CommandEvent { chat: -100, command: Command::Cat };
    let replies = vec![
        FetchReply::Unreachable("timeout".to_string()),
        FetchReply::Received { status: 503, body: Err("no body".to_string()) },
        FetchReply::Received { status: 200, body: Err("bad json".to_string()) },
        ok_reply(vec![]),
        ok_reply(vec![entry("1", "not a url")]),
    ];
    for r in replies.iter() {
        assert_eq!(h.complete(&ev, r), notice(-100));
    }
}

#[test]
fn reply_for_outcome_maps_both_ways() {
    assert_eq!(
        reply_for_outcome(5, Ok("https://example.com/c.jpg".to_string())),
        ReplyAction::SendPhoto { chat: 5, url: "https://example.com/c.jpg".to_string() }
    );
    let r = reply_for_outcome(5, Err(FetchError::EmptyResponseError));
    assert_eq!(r, notice(5));
    assert_eq!(r.chat(), 5);
}

#[test]
fn cat_command_fetches_an_image() {
    assert_eq!(job_of(Command::Cat), Job::FetchImage);
}

#[test]
fn mocked_api_sends_photo_to_conversation() {
    let h = handler(Some("key"));
    let ev = CommandEvent { chat: 42, command: Command::Cat };
    assert!(matches!(h.handle(&ev), HandlerStep::Fetch(_)));
    let reply = FetchReply::Received {
        status: 200,
        body: Ok(vec![ImageSearchResult {
            id: "1".to_string(),
            url: "https://example.com/cat.jpg".to_string(),
            width: 100,
            height: 100,
        }]),
    };
    let action = h.complete(&ev, &reply);
    assert_eq!(action, ReplyAction::SendPhoto { chat: 42, url: "https://example.com/cat.jpg".to_string() });
}

#[test]
fn mocked_server_error_sends_one_notice() {
    let h = handler(Some("key"));
    let ev = CommandEvent { chat: 42, command: Command::Cat };
    let action = h.complete(&ev, &FetchReply::Received { status: 500, body: Err("not decoded".to_string()) });
    assert_eq!(action, notice(42));
    let again = h.complete(&ev, &ok_reply(vec![entry("2", "https://example.com/next.jpg")]));
    assert_eq!(again, ReplyAction::SendPhoto { chat: 42, url: "https://example.com/next.jpg".to_string() });
}
