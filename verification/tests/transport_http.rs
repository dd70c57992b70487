//! REST core: rate-limit accounting, the 429 retry decision, header parsing,
//! route plans, multipart framing, and pagination.

use hello_discord::http::{
    build_multipart, bulk_overwrite_global_commands, bulk_overwrite_guild_commands, cap_delay,
    classify_response, count_messages_query, count_messages_step, create_interaction_response,
    create_message, edit_original_interaction_response, get_channel, get_first_message, get_guild,
    get_messages, multipart_boundary, multipart_content_type, parse_rate_limit_headers,
    parse_secs_to_ms, parse_u32_str, request_url, send_message, serde_error_text, DiscordHttpClient,
    HttpError, HttpMethod, RateLimiter, ResponseStep,
};
use hello_discord::types::custom::RateLimitInfo;
use hello_discord::types::datetime::Timestamp;
use hello_discord::types::id::Id;
use hello_discord::types::{Message, User};

fn info(remaining: Option<u32>, reset_after_ms: Option<u64>, bucket: Option<&str>, global: bool)
    -> RateLimitInfo {
    RateLimitInfo {
        remaining,
        reset_at_ms: None,
        reset_after_ms,
        bucket: bucket.map(|b| b.to_string()),
        is_global: global,
    }
}

fn message(id: u64) -> Message {
    Message {
        id: Id::new(id),
        channel_id: Id::new(100),
        guild_id: None,
        author: User {
            id: Id::new(1),
            name: "a".to_string(),
            discriminator: 0,
            avatar: None,
            bot: false,
            global_name: None,
        },
        content: "hi".to_string(),
        timestamp: Timestamp::from_raw("2021-01-01T01:01:01+00:00"),
        edited_timestamp: None,
        tts: false,
        mention_everyone: false,
        mentions: Vec::new(),
        attachments: Vec::new(),
        embeds: Vec::new(),
        pinned: false,
        message_reference: None,
        referenced_message: None,
        components: Vec::new(),
        interaction: None,
    }
}

// ---------------------------------------------------------------------------
// Bucket learning and pre-flight delays
// ---------------------------------------------------------------------------

#[test]
fn bucket_learning_permits_until_quota_runs_out() {
    // first response: bucket "abc", remaining 4, reset after 1 s
    let mut rl = RateLimiter::new();
    let route = "POST /channels/100/messages";
    rl.update(route, &info(Some(4), Some(1000), Some("abc"), false), 0);
    // the second call, issued immediately, is permitted without waiting
    assert_eq!(rl.delay_for(route, 1), None);
    // after the remaining quota is used up, the next call must wait
    rl.update(route, &info(Some(0), Some(700), Some("abc"), false), 300);
    assert_eq!(rl.delay_for(route, 400), Some(600));
    // once the reset passes, requests flow again
    assert_eq!(rl.delay_for(route, 1000), None);
}

#[test]
fn unknown_routes_are_not_delayed() {
    let rl = RateLimiter::new();
    assert_eq!(rl.delay_for("GET /guilds/1", 0), None);
}

#[test]
fn global_lockout_blocks_every_route() {
    // a global 429 with Retry-After 2 s blocks all routes until it expires
    let mut client = DiscordHttpClient::new("token");
    let route = "POST /channels/100/messages";
    let step = classify_response(
        &mut client.limiter,
        429,
        &info(None, Some(2000), None, true),
        0,
        10_000,
    );
    match step {
        ResponseStep::RetryAfter { delay_ms } => assert_eq!(delay_ms, 2000),
        _ => panic!("expected a retry"),
    }
    // any other route is blocked during the lockout
    assert_eq!(client.pre_flight_delay("GET /guilds/1", 10_500), Some(1500));
    assert_eq!(client.pre_flight_delay(route, 11_999), Some(1));
    // and clears afterwards
    assert_eq!(client.pre_flight_delay("GET /guilds/1", 12_000), None);
}

#[test]
fn rate_limited_retry_budget_is_five() {
    let mut rl = RateLimiter::new();
    let too_many = info(Some(0), Some(100), None, false);
    for attempt in 0..5 {
        match classify_response(&mut rl, 429, &too_many, attempt, 0) {
            ResponseStep::RetryAfter { .. } => {}
            _ => panic!("attempt {} should retry", attempt),
        }
    }
    assert!(matches!(classify_response(&mut rl, 429, &too_many, 5, 0), ResponseStep::Failed));
}

#[test]
fn response_status_classification() {
    let mut rl = RateLimiter::new();
    let none = info(None, None, None, false);
    assert!(matches!(classify_response(&mut rl, 200, &none, 0, 0), ResponseStep::Success));
    assert!(matches!(classify_response(&mut rl, 204, &none, 0, 0), ResponseStep::Success));
    assert!(matches!(classify_response(&mut rl, 404, &none, 0, 0), ResponseStep::Failed));
    assert!(matches!(classify_response(&mut rl, 500, &none, 0, 0), ResponseStep::Failed));
    // a 429 without a Retry-After header backs off one second
    match classify_response(&mut rl, 429, &none, 0, 0) {
        ResponseStep::RetryAfter { delay_ms } => assert_eq!(delay_ms, 1000),
        _ => panic!("expected a retry"),
    }
}

#[test]
fn delays_are_capped_at_one_minute() {
    assert_eq!(cap_delay(59_000), 59_000);
    assert_eq!(cap_delay(61_000), 60_000);
    let mut rl = RateLimiter::new();
    match classify_response(&mut rl, 429, &info(None, Some(300_000), None, false), 0, 0) {
        ResponseStep::RetryAfter { delay_ms } => assert_eq!(delay_ms, 60_000),
        _ => panic!("expected a retry"),
    }
}

// ---------------------------------------------------------------------------
// Header parsing
// ---------------------------------------------------------------------------

#[test]
fn rate_limit_headers_parse() {
    let headers = vec![
        ("x-ratelimit-remaining".to_string(), "4".to_string()),
        ("x-ratelimit-reset-after".to_string(), "1.25".to_string()),
        ("x-ratelimit-bucket".to_string(), "abc".to_string()),
        ("x-ratelimit-global".to_string(), "true".to_string()),
    ];
    let info = parse_rate_limit_headers(&headers);
    assert_eq!(info.remaining, Some(4));
    assert_eq!(info.reset_after_ms, Some(1250));
    assert_eq!(info.bucket.as_deref(), Some("abc"));
    assert!(info.is_global);

    let empty: Vec<(String, String)> = Vec::new();
    let info = parse_rate_limit_headers(&empty);
    assert_eq!(info.remaining, None);
    assert_eq!(info.reset_after_ms, None);
    assert_eq!(info.bucket, None);
    assert!(!info.is_global);
}

#[test]
fn header_number_grammars() {
    assert_eq!(parse_u32_str("0"), Some(0));
    assert_eq!(parse_u32_str("4294967295"), Some(u32::MAX));
    assert_eq!(parse_u32_str("4294967296"), None);
    assert_eq!(parse_u32_str(""), None);
    assert_eq!(parse_u32_str("12a"), None);

    assert_eq!(parse_secs_to_ms("2"), Some(2000));
    assert_eq!(parse_secs_to_ms("1.25"), Some(1250));
    assert_eq!(parse_secs_to_ms("0.5"), Some(500));
    assert_eq!(parse_secs_to_ms("1.2345"), Some(1234));
    assert_eq!(parse_secs_to_ms("5."), Some(5000));
    assert_eq!(parse_secs_to_ms(""), None);
    assert_eq!(parse_secs_to_ms(".5"), None);
    assert_eq!(parse_secs_to_ms("1.2.3"), None);
}

// ---------------------------------------------------------------------------
// Route plans
// ---------------------------------------------------------------------------

#[test]
fn major_parameters_shape_the_route_keys() {
    let plan = create_message("1234567890");
    assert!(matches!(plan.method, HttpMethod::Post));
    assert_eq!(plan.path, "channels/1234567890/messages");
    assert_eq!(plan.route_key, "POST /channels/1234567890/messages");

    let plan = get_messages("100", "limit=100&before=7");
    assert_eq!(plan.path, "channels/100/messages?limit=100&before=7");
    assert_eq!(plan.route_key, "GET /channels/100/messages");

    let plan = get_guild("9");
    assert_eq!(plan.path, "guilds/9?with_counts=true");
    assert_eq!(plan.route_key, "GET /guilds/9");

    let plan = get_channel("100");
    assert_eq!(plan.route_key, "GET /channels/100");

    let plan = create_interaction_response("55", "tok");
    assert_eq!(plan.path, "interactions/55/tok/callback");
    assert_eq!(plan.route_key, "POST /interactions/callback");

    let plan = edit_original_interaction_response("77", "tok");
    assert_eq!(plan.path, "webhooks/77/tok/messages/@original");
    assert_eq!(plan.route_key, "PATCH /webhooks/interaction/messages/@original");

    let plan = bulk_overwrite_guild_commands("7", "8");
    assert_eq!(plan.path, "applications/7/guilds/8/commands");
    assert_eq!(plan.route_key, "PUT /applications/7/guilds/8/commands");

    let plan = bulk_overwrite_global_commands("7");
    assert_eq!(plan.route_key, "PUT /applications/7/commands");
}

#[test]
fn send_message_plans_a_content_only_body() {
    let (plan, msg) = send_message("100", "hello");
    assert_eq!(plan.route_key, "POST /channels/100/messages");
    assert_eq!(msg.content.as_deref(), Some("hello"));
    assert!(msg.embeds.is_none());
}

#[test]
fn request_urls_join_the_base() {
    assert_eq!(
        request_url("channels/1/messages"),
        "https://discord.com/api/v10/channels/1/messages"
    );
    assert_eq!(request_url("//guilds/2"), "https://discord.com/api/v10/guilds/2");
}

#[test]
fn auth_header_carries_the_token() {
    let client = DiscordHttpClient::new("secret");
    assert_eq!(client.auth_header(), "Bot secret");
}

// ---------------------------------------------------------------------------
// Multipart framing
// ---------------------------------------------------------------------------

#[test]
fn multipart_body_frames_payload_and_file() {
    let body = build_multipart("B", Some("hi"), "logo.png", &vec![1u8, 2, 3]);
    let expected_prefix = "--B\r\nContent-Disposition: form-data; name=\"payload_json\"\r\n\
                           Content-Type: application/json\r\n\r\n{\"content\":\"hi\"}\r\n\
                           --B\r\nContent-Disposition: form-data; name=\"file\"; filename=\"logo.png\"\r\n\
                           Content-Type: application/octet-stream\r\n\r\n";
    let expected_suffix = "\r\n--B--\r\n";
    let mut expected: Vec<u8> = expected_prefix.as_bytes().to_vec();
    expected.extend_from_slice(&[1, 2, 3]);
    expected.extend_from_slice(expected_suffix.as_bytes());
    assert_eq!(body, expected);
}

#[test]
fn multipart_body_without_payload_json() {
    let body = build_multipart("B", None, "f", &vec![]);
    let text = String::from_utf8(body).unwrap();
    assert!(text.starts_with("--B\r\nContent-Disposition: form-data; name=\"file\""));
    assert!(text.ends_with("--B--\r\n"));
    assert!(!text.contains("payload_json"));
}

#[test]
fn multipart_boundary_and_content_type() {
    let b = multipart_boundary();
    assert!(b.starts_with("BeetBoundary"));
    assert_eq!(b.len(), "BeetBoundary".len() + 16);
    assert_eq!(
        multipart_content_type("BeetBoundary0123456789abcdef"),
        "multipart/form-data; boundary=BeetBoundary0123456789abcdef"
    );
}

// ---------------------------------------------------------------------------
// Pagination and errors
// ---------------------------------------------------------------------------

#[test]
fn count_messages_walks_backwards_without_duplicates() {
    let full: Vec<Message> = (1..=100).map(|i| message(i)).collect();
    let step = count_messages_step(0, &full);
    assert_eq!(step.count, 100);
    assert!(!step.done);
    assert_eq!(step.before.as_deref(), Some("100"));
    assert_eq!(count_messages_query(&step.before), "limit=100&before=100");

    let short: Vec<Message> = (101..=110).map(|i| message(i)).collect();
    let step = count_messages_step(step.count, &short);
    assert_eq!(step.count, 110);
    assert!(step.done);

    let empty: Vec<Message> = Vec::new();
    let step = count_messages_step(0, &empty);
    assert_eq!(step.count, 0);
    assert!(step.done);
    assert_eq!(count_messages_query(&None), "limit=100");
}

#[test]
fn first_message_of_an_empty_channel_is_a_missing_error() {
    let got = get_first_message(vec![message(5)], "100").unwrap();
    assert_eq!(got.id.get(), 5);

    match get_first_message(Vec::new(), "100") {
        Err(HttpError::Api { status, body, route }) => {
            assert_eq!(status, 404);
            assert_eq!(body, "No messages found in this channel.");
            assert_eq!(route, "GET /channels/100/messages");
        }
        _ => panic!("expected a 404-shaped error"),
    }
}

#[test]
fn error_messages_name_the_route() {
    let err = HttpError::Api {
        status: 403,
        body: "missing access".to_string(),
        route: "GET /guilds/9".to_string(),
    };
    assert_eq!(err.message(), "Discord API error 403 on GET /guilds/9: missing access");
    assert_eq!(
        HttpError::Transport("timed out".to_string()).message(),
        "HTTP transport error: timed out"
    );
    assert_eq!(HttpError::Serde("eof".to_string()).message(), "Serialisation error: eof");
}

#[test]
fn serde_error_snippets_are_truncated() {
    let long = "x".repeat(300);
    let text = serde_error_text("expected value", &long);
    assert_eq!(text.len(), "expected value: ".len() + 200);
    assert_eq!(serde_error_text("eof", "short"), "eof: short");
}
