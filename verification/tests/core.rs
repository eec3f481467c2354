use gw2api_rs::blocking;
use gw2api_rs::error::{classify_decoded, classify_error_body};
use gw2api_rs::rate_limit::{send_when_ready, Admission, Gated, RateLimiter, Window};
use gw2api_rs::response::status_is_success;
use gw2api_rs::text::{has_char, push_decimal, text_is};
use gw2api_rs::uri::{localize, resource_uri};
use gw2api_rs::v2::account::{Access, AccountAccess, AccountLuck, LuckEntry, LuckValue};
use gw2api_rs::v2::game_build::Build;
use gw2api_rs::v2::tokeninfo::TokenInfo;
use gw2api_rs::v2::worlds::Population;
use gw2api_rs::{
    Authentication, Client, ClientExecutor, Dispatch, Error, Event, IdParameter, JsonError,
    Language, Progress, RequestBuilder, ResourceDescriptor, ResponseFuture, Step, TransportError,
    UsageError,
};
use serde_json::Value;

fn decode_numbers(bytes: Vec<u8>) -> Result<Vec<u64>, JsonError> {
    serde_json::from_slice(&bytes).map_err(|err| JsonError { message: err.to_string() })
}

fn never<T>(_bytes: Vec<u8>) -> Result<T, JsonError> {
    panic!("the decoder was called")
}

fn request() -> Dispatch {
    Dispatch {
        url: String::from("https://api.guildwars2.com/v2/build"),
        schema_version: String::from("2022-03-23T19:00:00.000Z"),
        authorization: None,
    }
}

// ---- the query of an id parameter

#[test]
fn all_renders_as_ids_all() {
    assert_eq!(IdParameter::<u64>::All.render().unwrap(), "ids=all");
}

#[test]
fn single_id_renders_as_id() {
    assert_eq!(IdParameter::Id(69u64).render().unwrap(), "id=69");
}

#[test]
fn many_ids_render_in_order_with_commas_between() {
    assert_eq!(IdParameter::Ids(vec![0u64, 1, 2, 3]).render().unwrap(), "ids=0,1,2,3");
    assert_eq!(IdParameter::Ids(vec![3u64, 3, 1]).render().unwrap(), "ids=3,3,1");
    assert_eq!(IdParameter::Ids(vec![42u64]).render().unwrap(), "ids=42");
    assert_eq!(
        IdParameter::Ids(vec![u64::MAX, 0]).render().unwrap(),
        "ids=18446744073709551615,0"
    );
}

#[test]
fn text_ids_render_as_they_are() {
    let ids = vec![String::from("ac_story"), String::from("cm")];
    assert_eq!(IdParameter::Ids(ids).render().unwrap(), "ids=ac_story,cm");
    assert_eq!(IdParameter::Id(String::from("1-1")).render().unwrap(), "id=1-1");
}

#[test]
fn an_empty_id_list_is_an_invalid_argument() {
    assert_eq!(IdParameter::Ids(Vec::<u64>::new()).render(), Err(UsageError::InvalidArgument));
    assert_eq!(
        resource_uri("/v2/worlds", Some(&IdParameter::Ids(Vec::<u64>::new()))),
        Err(UsageError::InvalidArgument)
    );
}

// ---- the URI of a request

#[test]
fn the_uri_follows_the_id_strategy() {
    assert_eq!(resource_uri::<u64>("/v2/worlds", None).unwrap(), "/v2/worlds");
    assert_eq!(resource_uri("/v2/worlds", Some(&IdParameter::Id(1001u64))).unwrap(), "/v2/worlds?id=1001");
    assert_eq!(
        resource_uri("/v2/worlds", Some(&IdParameter::Ids(vec![1001u64, 2003]))).unwrap(),
        "/v2/worlds?ids=1001,2003"
    );
    assert_eq!(
        resource_uri("/v2/worlds", Some(&IdParameter::<u64>::All)).unwrap(),
        "/v2/worlds?ids=all"
    );
}

#[test]
fn building_a_uri_twice_gives_the_same_text() {
    let ids = IdParameter::Ids(vec![5u64, 10, 15]);
    let first = resource_uri("/v2/titles", Some(&ids)).unwrap();
    let second = resource_uri("/v2/titles", Some(&ids)).unwrap();
    assert_eq!(first.as_bytes(), second.as_bytes());
}

#[test]
fn the_language_follows_the_query() {
    assert_eq!(localize("/v2/wvw/ranks", true, Language::Fr), "/v2/wvw/ranks?lang=fr");
    assert_eq!(localize("/v2/wvw/ranks?id=2", true, Language::Zh), "/v2/wvw/ranks?id=2&lang=zh");
    assert_eq!(localize("/v2/wvw/ranks?id=2", false, Language::Zh), "/v2/wvw/ranks?id=2");
}

#[test]
fn a_descriptor_builds_its_requests() {
    let ranks = ResourceDescriptor {
        uri: "/v2/wvw/ranks",
        authentication: Authentication::Optional,
        localized: true,
    };
    let plain = ranks.request();
    assert_eq!(plain.uri(), "/v2/wvw/ranks");
    assert_eq!(plain.authentication(), Authentication::Optional);
    assert!(plain.is_localized());
    let some = ranks.request_for(&IdParameter::Ids(vec![1u64, 2])).unwrap();
    assert_eq!(some.uri(), "/v2/wvw/ranks?ids=1,2");
    assert!(some.is_localized());
    assert!(matches!(
        ranks.request_for(&IdParameter::Ids(Vec::<u64>::new())),
        Err(UsageError::InvalidArgument)
    ));
}

#[test]
fn a_request_builder_starts_public_and_unlocalized() {
    let built = RequestBuilder::new("/v2/build");
    assert!(built.authentication().is_none());
    assert!(!built.authentication().is_optional());
    assert!(!built.is_localized());
    let changed = built.authenticated(Authentication::Required).localized(true);
    assert!(changed.authentication().is_required());
    assert!(changed.is_localized());
    assert_eq!(changed.uri(), "/v2/build");
}

// ---- what the client sends

#[test]
fn a_required_token_that_is_missing_ends_the_request_at_once() {
    let client = Client::new();
    let mut response: ResponseFuture<TokenInfo> = TokenInfo::get(&client);
    assert!(response.dispatch().is_none());
    assert!(response.is_done());
    match response.poll(Event::Pending, never) {
        Ok(Progress::Ready(Err(Error::NoAccessToken))) => {}
        _ => panic!("expected the missing token to be reported"),
    }
    assert!(matches!(
        response.poll(Event::Pending, never),
        Err(UsageError::PolledAfterCompletion)
    ));
}

#[test]
fn an_optional_token_that_is_missing_is_left_out() {
    let client = Client::new();
    let request = RequestBuilder::new("/v2/characters").authenticated(Authentication::Optional);
    let response: ResponseFuture<Vec<u64>> = client.send(request);
    let dispatch = response.dispatch().unwrap();
    assert_eq!(dispatch.url, "https://api.guildwars2.com/v2/characters");
    assert_eq!(dispatch.authorization, None);
    assert_eq!(dispatch.schema_version, "2022-03-23T19:00:00.000Z");
}

#[test]
fn a_token_is_sent_to_the_endpoints_that_take_one() {
    let client = Client::from(Client::builder().access_token("ABC-123").language(Language::Es));
    assert!(client.has_access_token());
    assert_eq!(client.language(), Language::Es);
    let required: ResponseFuture<Vec<u64>> = client
        .send(RequestBuilder::new("/v2/account/dyes").authenticated(Authentication::Required));
    assert_eq!(required.dispatch().unwrap().authorization, Some(String::from("Bearer ABC-123")));
    let optional: ResponseFuture<Vec<u64>> =
        client.send(RequestBuilder::new("/v2/x").authenticated(Authentication::Optional));
    assert_eq!(optional.dispatch().unwrap().authorization, Some(String::from("Bearer ABC-123")));
    let public: ResponseFuture<Build> = Build::get(&client);
    assert_eq!(public.dispatch().unwrap().authorization, None);
    let localized: ResponseFuture<Vec<u64>> =
        client.send(RequestBuilder::new("/v2/items?id=5").localized(true));
    assert_eq!(localized.dispatch().unwrap().url, "https://api.guildwars2.com/v2/items?id=5&lang=es");
}

#[test]
fn sending_twice_asks_for_the_same() {
    let client = Client::from(Client::builder().access_token("T"));
    let first: ResponseFuture<Vec<u64>> = client.send(
        RequestBuilder::new("/v2/minis").authenticated(Authentication::Optional).localized(true),
    );
    let second: ResponseFuture<Vec<u64>> = client.send(
        RequestBuilder::new("/v2/minis").authenticated(Authentication::Optional).localized(true),
    );
    let (a, b) = (first.dispatch().unwrap(), second.dispatch().unwrap());
    assert_eq!(a.url.as_bytes(), b.url.as_bytes());
    assert_eq!(a.authorization, b.authorization);
    assert_eq!(a.schema_version, b.schema_version);
}

#[test]
fn a_builder_starts_without_a_token_in_english() {
    let client = Client::from(Client::builder());
    assert!(!client.has_access_token());
    assert_eq!(client.language(), Language::En);
    assert_eq!(Client::default().language(), Language::default());
}

// ---- the response

#[test]
fn a_success_status_and_a_valid_body_give_the_value() {
    let mut response: ResponseFuture<Vec<u64>> = ResponseFuture::new(request());
    assert!(response.is_awaiting_headers());
    assert!(matches!(response.poll(Event::Pending, never), Ok(Progress::Pending)));
    assert!(response.is_awaiting_headers());
    assert!(matches!(response.poll(Event::Headers(200), never), Ok(Progress::ReadBody)));
    assert!(response.is_awaiting_body());
    assert!(matches!(response.poll(Event::Pending, never), Ok(Progress::Pending)));
    assert!(response.is_awaiting_body());
    match response.poll(Event::Body(b"[1, 2, 3]".to_vec()), decode_numbers) {
        Ok(Progress::Ready(Ok(value))) => assert_eq!(value, vec![1, 2, 3]),
        _ => panic!("expected the decoded value"),
    }
    assert!(response.is_done());
    assert!(matches!(
        response.poll(Event::Pending, never),
        Err(UsageError::PolledAfterCompletion)
    ));
}

#[test]
fn a_success_status_and_an_invalid_body_give_a_json_error() {
    let mut response: ResponseFuture<Vec<u64>> = ResponseFuture::new(request());
    response.poll(Event::Headers(204), never).unwrap();
    match response.poll(Event::Body(b"{\"text\": \"not a list\"}".to_vec()), decode_numbers) {
        Ok(Progress::Ready(Err(error))) => {
            assert!(error.is_json());
            assert!(!error.is_api());
        }
        _ => panic!("expected a decoding failure"),
    }
}

#[test]
fn a_failure_status_and_an_error_body_give_the_api_error() {
    let mut response: ResponseFuture<Vec<u64>> = ResponseFuture::new(request());
    assert!(matches!(response.poll(Event::Headers(404), never), Ok(Progress::ReadBody)));
    match response.poll(Event::Body(b"{\"text\": \"no such id\"}".to_vec()), never) {
        Ok(Progress::Ready(Err(error))) => {
            assert!(error.is_api());
            assert_eq!(error.api_text(), Some(String::from("no such id")));
        }
        _ => panic!("expected the error of the API"),
    }
    assert!(response.is_done());
}

#[test]
fn a_failure_status_and_another_body_give_a_json_error() {
    for body in ["[1, 2, 3]", "{\"message\": \"x\"}", "{\"text\": 5}", "not json", ""] {
        let mut response: ResponseFuture<Vec<u64>> = ResponseFuture::new(request());
        response.poll(Event::Headers(503), never).unwrap();
        match response.poll(Event::Body(body.as_bytes().to_vec()), never) {
            Ok(Progress::Ready(Err(error))) => {
                assert!(error.is_json());
                assert_eq!(error.api_text(), None);
            }
            _ => panic!("expected a decoding failure"),
        }
    }
}

#[test]
fn a_body_that_would_decode_is_still_an_error_after_a_failure_status() {
    let mut response: ResponseFuture<Vec<u64>> = ResponseFuture::new(request());
    response.poll(Event::Headers(500), never).unwrap();
    match response.poll(Event::Body(b"[1]".to_vec()), decode_numbers) {
        Ok(Progress::Ready(Err(Error::Json(json)))) => {
            assert_eq!(json.message, "missing field `text`")
        }
        _ => panic!("expected a decoding failure"),
    }
}

#[test]
fn a_transport_failure_ends_the_response() {
    let mut early: ResponseFuture<Vec<u64>> = ResponseFuture::new(request());
    let refused = TransportError { message: String::from("connection refused") };
    match early.poll(Event::Failed(refused), never) {
        Ok(Progress::Ready(Err(Error::Http(error)))) => {
            assert_eq!(error.message, "connection refused")
        }
        _ => panic!("expected the transport's failure"),
    }
    assert!(early.is_done());

    let mut late: ResponseFuture<Vec<u64>> = ResponseFuture::new(request());
    late.poll(Event::Headers(200), never).unwrap();
    let reset = TransportError { message: String::from("connection reset") };
    match late.poll(Event::Failed(reset), never) {
        Ok(Progress::Ready(Err(error))) => assert!(error.is_http()),
        _ => panic!("expected the transport's failure"),
    }
    assert!(matches!(late.poll(Event::Pending, never), Err(UsageError::PolledAfterCompletion)));
}

#[test]
fn an_event_out_of_turn_is_refused_and_changes_nothing() {
    let mut response: ResponseFuture<Vec<u64>> = ResponseFuture::new(request());
    assert!(matches!(
        response.poll(Event::Body(b"[]".to_vec()), never),
        Err(UsageError::UnexpectedEvent)
    ));
    assert!(response.is_awaiting_headers());
    response.poll(Event::Headers(200), never).unwrap();
    assert!(matches!(response.poll(Event::Headers(200), never), Err(UsageError::UnexpectedEvent)));
    assert!(response.is_awaiting_body());
    assert!(response.dispatch().is_some());
}

#[test]
fn a_step_hands_a_success_body_back_undecoded() {
    let mut response: ResponseFuture<Vec<u64>> = ResponseFuture::new(request());
    assert!(matches!(response.step(Event::Headers(200)), Step::Answer(Ok(Progress::ReadBody))));
    match response.step(Event::Body(b"[7]".to_vec())) {
        Step::Decode(body) => assert_eq!(body, b"[7]".to_vec()),
        _ => panic!("expected the body"),
    }
    assert!(response.is_done());
}

#[test]
fn a_result_is_handed_out_once() {
    let mut response: ResponseFuture<u64> = ResponseFuture::result(Ok(5));
    assert!(response.is_done());
    assert!(matches!(response.poll(Event::Headers(200), never), Ok(Progress::Ready(Ok(5)))));
    assert!(matches!(
        response.poll(Event::Headers(200), never),
        Err(UsageError::PolledAfterCompletion)
    ));
}

#[test]
fn only_the_two_hundreds_are_a_success() {
    assert!(!status_is_success(199));
    assert!(status_is_success(200));
    assert!(status_is_success(299));
    assert!(!status_is_success(300));
    assert!(!status_is_success(404));
    assert!(!status_is_success(0));
}

// ---- the errors

#[test]
fn an_error_payload_survives_encoding_and_decoding() {
    let mut object = serde_json::Map::new();
    object.insert(String::from("text"), Value::String(String::from("no access token")));
    let bytes = serde_json::to_vec(&Value::Object(object)).unwrap();
    match classify_error_body(&bytes) {
        Error::Api(api) => assert_eq!(api.text, "no access token"),
        _ => panic!("expected the error of the API"),
    }
}

#[test]
fn an_error_payload_may_hold_more_than_the_text() {
    let error = classify_error_body(b"{\"code\": 7, \"text\": \"invalid key\", \"more\": [1]}");
    assert_eq!(error.api_text(), Some(String::from("invalid key")));
}

#[test]
fn a_payload_without_text_is_a_json_error() {
    match classify_error_body(b"{\"txt\": \"typo\"}") {
        Error::Json(json) => assert_eq!(json.message, "missing field `text`"),
        _ => panic!("expected a decoding failure"),
    }
    match classify_error_body(b"{\"text\": ") {
        Error::Json(json) => assert!(!json.message.is_empty()),
        _ => panic!("expected a decoding failure"),
    }
}

#[test]
fn a_decoded_value_passes_and_a_decoder_error_is_a_json_error() {
    assert!(matches!(classify_decoded::<u64>(Ok(9)), Ok(9)));
    let failed = classify_decoded::<u64>(Err(JsonError { message: String::from("eof") }));
    match failed {
        Err(Error::Json(json)) => assert_eq!(json.message, "eof"),
        _ => panic!("expected a decoding failure"),
    }
}

#[test]
fn each_error_knows_its_kind() {
    let http = Error::Http(TransportError { message: String::from("timeout") });
    assert!(http.is_http() && !http.is_json() && !http.is_api() && !http.is_no_access_token());
    let json = Error::Json(JsonError { message: String::from("eof") });
    assert!(json.is_json() && !json.is_http());
    let token = Error::NoAccessToken;
    assert!(token.is_no_access_token() && !token.is_api());
    assert_eq!(token.api_text(), None);
}

// ---- the blocking client

#[test]
fn a_blocking_call_feeds_the_reply_through_the_response() {
    let client = blocking::Client::new();
    let failed = Build::get(&client).run(
        |_request: Dispatch| -> Result<blocking::HttpResponse, TransportError> {
            Ok(blocking::HttpResponse { status: 429, body: b"{\"text\": \"too many requests\"}".to_vec() })
        },
        never::<Build>,
    );
    assert_eq!(failed.unwrap_err().api_text(), Some(String::from("too many requests")));

    let broken = Build::get(&client).run(
        |_request: Dispatch| -> Result<blocking::HttpResponse, TransportError> {
            Err(TransportError { message: String::from("dns") })
        },
        never::<Build>,
    );
    assert!(broken.unwrap_err().is_http());

    let undecodable = Build::get(&client).run(
        |_request: Dispatch| -> Result<blocking::HttpResponse, TransportError> {
            Ok(blocking::HttpResponse { status: 200, body: b"oops".to_vec() })
        },
        |bytes: Vec<u8>| -> Result<Build, JsonError> {
            let value: Value = serde_json::from_slice(&bytes)
                .map_err(|err| JsonError { message: err.to_string() })?;
            Ok(Build { id: value["id"].as_u64().unwrap_or(0) })
        },
    );
    assert!(undecodable.unwrap_err().is_json());
}

// ---- the rate limiter

#[test]
fn a_limit_of_three_admits_two_per_window() {
    let mut limiter = RateLimiter::new(3, 1000);
    assert_eq!(limiter.limit(), 3);
    assert_eq!(limiter.poll_ready(1000), Admission::Admitted);
    assert_eq!(limiter.window(), Window::Ready { until: 61000, rem: 2 });
    assert_eq!(limiter.poll_ready(1001), Admission::Admitted);
    assert_eq!(limiter.window(), Window::Ready { until: 61000, rem: 1 });
    assert_eq!(limiter.poll_ready(1002), Admission::Suspended { until: 61000 });
    assert_eq!(limiter.window(), Window::Limited);
    assert_eq!(limiter.poll_ready(60999), Admission::Suspended { until: 61000 });
    assert_eq!(limiter.window(), Window::Limited);
    // the window rolls over
    assert_eq!(limiter.poll_ready(61000), Admission::Admitted);
    assert_eq!(limiter.window(), Window::Ready { until: 121000, rem: 2 });
    assert_eq!(limiter.poll_ready(61001), Admission::Admitted);
    assert_eq!(limiter.poll_ready(61002), Admission::Suspended { until: 121000 });
}

#[test]
fn a_changed_limit_counts_from_the_next_window() {
    let mut limiter = RateLimiter::new(3, 0);
    assert_eq!(limiter.poll_ready(0), Admission::Admitted);
    limiter.change(5);
    assert_eq!(limiter.limit(), 5);
    assert_eq!(limiter.window(), Window::Ready { until: 60000, rem: 2 });
    assert_eq!(limiter.poll_ready(1), Admission::Admitted);
    assert_eq!(limiter.poll_ready(2), Admission::Suspended { until: 60000 });
    assert_eq!(limiter.poll_ready(60000), Admission::Admitted);
    assert_eq!(limiter.window(), Window::Ready { until: 120000, rem: 4 });
}

#[test]
fn a_ready_window_that_has_ended_is_replaced() {
    let mut limiter = RateLimiter::new(4, 0);
    assert_eq!(limiter.poll_ready(10), Admission::Admitted);
    assert_eq!(limiter.window(), Window::Ready { until: 60010, rem: 3 });
    assert_eq!(limiter.poll_ready(70000), Admission::Admitted);
    assert_eq!(limiter.window(), Window::Ready { until: 130000, rem: 3 });
}

#[test]
fn a_limit_of_one_admits_once_per_rollover() {
    let mut limiter = RateLimiter::new(1, 0);
    assert_eq!(limiter.poll_ready(0), Admission::Suspended { until: 60000 });
    assert_eq!(limiter.poll_ready(59999), Admission::Suspended { until: 60000 });
    assert_eq!(limiter.poll_ready(60000), Admission::Admitted);
    assert_eq!(limiter.window(), Window::Ready { until: 120000, rem: 0 });
    assert_eq!(limiter.poll_ready(60001), Admission::Suspended { until: 120000 });
}

#[test]
fn a_gated_request_is_sent_or_handed_back() {
    let client = Client::new();
    let mut limiter = RateLimiter::new(2, 0);
    let sent: Gated<ResponseFuture<Build>> =
        send_when_ready(&client, &mut limiter, 0, RequestBuilder::new("/v2/build"));
    match sent {
        Gated::Sent(response) => {
            assert_eq!(response.dispatch().unwrap().url, "https://api.guildwars2.com/v2/build")
        }
        Gated::Held { .. } => panic!("expected the request to be admitted"),
    }
    let held: Gated<ResponseFuture<Build>> =
        send_when_ready(&client, &mut limiter, 5, RequestBuilder::new("/v2/build"));
    match held {
        Gated::Held { until, request } => {
            assert_eq!(until, 60000);
            assert_eq!(request.uri(), "/v2/build");
        }
        Gated::Sent(_) => panic!("expected the request to be held"),
    }
}

// ---- the account's access and luck

#[test]
fn access_names_are_read_into_a_set() {
    let names = vec![
        String::from("GuildWars2"),
        String::from("HeartOfThorns"),
        String::from("GuildWars2"),
    ];
    let access = AccountAccess::from_names(&names).unwrap();
    assert!(access.guild_wars_2());
    assert!(access.heart_of_thorns());
    assert!(!access.play_for_free());
    assert!(!access.path_of_fire());
    assert!(!access.end_of_dragons());
    assert!(!access.none());
    assert_eq!(access.len(), 2);
    assert_eq!(access.names(), vec!["GuildWars2", "HeartOfThorns"]);
}

#[test]
fn access_names_are_written_in_a_fixed_order() {
    let names = vec![
        String::from("EndOfDragons"),
        String::from("PathOfFire"),
        String::from("None"),
        String::from("PlayForFree"),
    ];
    let access = AccountAccess::from_names(&names).unwrap();
    assert!(access.none());
    assert_eq!(access.len(), 4);
    assert_eq!(access.names(), vec!["PlayForFree", "PathOfFire", "EndOfDragons"]);
    assert_eq!(AccountAccess::empty().names(), Vec::<String>::new());
    assert!(AccountAccess::empty().with(Access::PathOfFire).has(Access::PathOfFire));
}

#[test]
fn an_unknown_access_name_is_an_error() {
    let names = vec![String::from("GuildWars2"), String::from("GuildWars3")];
    assert_eq!(AccountAccess::from_names(&names).unwrap_err().message, "invalid account access");
    assert_eq!(Access::from_name(&String::from("none")), None);
    assert_eq!(Access::from_name(&String::from("None")), Some(Access::NoAccess));
    assert_eq!(Access::EndOfDragons.name(), "EndOfDragons");
    assert_eq!(Access::HeartOfThorns.bit(), 8);
}

fn entry(key: &str, value: LuckValue) -> LuckEntry {
    LuckEntry { key: String::from(key), value }
}

fn luck_text() -> LuckValue {
    LuckValue::Text(String::from("luck"))
}

#[test]
fn luck_is_read_from_its_document() {
    assert_eq!(AccountLuck::decode(&vec![]).unwrap(), AccountLuck(0));
    let document = vec![vec![entry("id", luck_text()), entry("value", LuckValue::Number(4281125))]];
    assert_eq!(AccountLuck::decode(&document).unwrap(), AccountLuck(4281125));
}

#[test]
fn a_malformed_luck_document_says_what_is_wrong() {
    let message = |document: Vec<Vec<LuckEntry>>| AccountLuck::decode(&document).unwrap_err().message;
    assert_eq!(message(vec![vec![]]), "missing fields id, value");
    assert_eq!(
        message(vec![vec![entry("value", LuckValue::Number(1))]]),
        "expected a luck id value"
    );
    assert_eq!(
        message(vec![vec![entry("id", LuckValue::Text(String::from("karma")))]]),
        "expected a luck id value"
    );
    assert_eq!(message(vec![vec![entry("id", LuckValue::Null)]]), "expected a luck id value");
    assert_eq!(message(vec![vec![entry("id", luck_text())]]), "missing fields value");
    assert_eq!(
        message(vec![vec![entry("id", luck_text()), entry("amount", LuckValue::Number(1))]]),
        "expected a value"
    );
    assert_eq!(
        message(vec![vec![entry("id", luck_text()), entry("value", LuckValue::Null)]]),
        "expected a value"
    );
}

#[test]
fn luck_is_written_as_it_is_read() {
    assert!(AccountLuck(0).encode().is_empty());
    let document = AccountLuck(300).encode();
    assert_eq!(document.len(), 1);
    assert_eq!(document[0].len(), 2);
    assert_eq!(document[0][0].key, "id");
    assert!(matches!(&document[0][0].value, LuckValue::Text(text) if text == "luck"));
    assert_eq!(document[0][1].key, "value");
    assert!(matches!(document[0][1].value, LuckValue::Number(300)));
    assert_eq!(AccountLuck::decode(&document).unwrap(), AccountLuck(300));
}

// ---- the small things

#[test]
fn each_language_has_its_tag() {
    assert_eq!(Language::En.code(), "en");
    assert_eq!(Language::Es.code(), "es");
    assert_eq!(Language::De.code(), "de");
    assert_eq!(Language::Fr.code(), "fr");
    assert_eq!(Language::Zh.code(), "zh");
    assert_eq!(Language::De.to_text(), "de");
    assert_eq!(Language::default(), Language::En);
}

#[test]
fn populations_are_ordered_by_how_full_they_are() {
    assert_eq!(Population::Medium.as_u8(), 0);
    assert_eq!(Population::High.as_u8(), 1);
    assert_eq!(Population::VeryHigh.as_u8(), 2);
    assert_eq!(Population::Full.as_u8(), 3);
    assert!(Population::Medium < Population::High);
    assert!(Population::VeryHigh < Population::Full);
    assert!(Population::Full > Population::Medium);
    assert_eq!(
        Population::High.partial_cmp(&Population::High),
        Some(std::cmp::Ordering::Equal)
    );
}

#[test]
fn numbers_are_written_in_decimal() {
    let mut out = String::from("n=");
    push_decimal(&mut out, 0);
    out.push(' ');
    push_decimal(&mut out, 9);
    out.push(' ');
    push_decimal(&mut out, 10);
    out.push(' ');
    push_decimal(&mut out, 1234567890);
    assert_eq!(out, "n=0 9 10 1234567890");
}

#[test]
fn text_is_searched_and_compared() {
    assert!(has_char("/v2/items?id=5", '?'));
    assert!(!has_char("/v2/items", '?'));
    assert!(!has_char("", '?'));
    assert!(text_is(&String::from("luck"), "luck"));
    assert!(!text_is(&String::from("luck"), "Luck"));
}
