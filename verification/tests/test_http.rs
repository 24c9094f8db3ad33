use check_probes::checking::{
    check_document_age, check_page_size, check_response, check_response_time, check_status,
    Bounds, CheckParameters, CheckResult, State, UpperLevels,
};
use check_probes::connection::{
    request_of, start, step, walk, AddressRule, ConnectionConfig, HopEvent, IpAddress,
    OnRedirect, SocketAddress, TransportError, WalkErrorKind, WalkState,
};
use check_probes::http::{
    find_header, has_unique_names, request_line, status_line, status_line_with, ClientConfig,
    FinalResponse, Method, RequestConfig, Response, Version,
};
use check_probes::output::{worst, Output};
use check_probes::runner::{check_failure, check_walk, collect_checks};
use check_probes::text::{decimal, join};
use std::time::Duration;

const LOCALHOST_DNS: &str = "localhost";

fn peer() -> SocketAddress {
    SocketAddress { ip: IpAddress::V4(0x7f00_0001), port: 8888 }
}

/// Reads a raw response as a transport would.
fn parse_response(raw: &str, request_line: &str) -> Response {
    let mut lines = raw.split('\n');
    let status_line = lines.next().unwrap();
    let mut parts = status_line.splitn(3, ' ');
    let version = match parts.next().unwrap() {
        "HTTP/1.0" => Version::Http10,
        "HTTP/1.1" => Version::Http11,
        other => panic!("unexpected version {}", other),
    };
    let status: u16 = parts.next().unwrap().parse().unwrap();
    let reason = parts.next().unwrap_or("").to_string();
    let mut headers = Vec::new();
    for line in lines.by_ref() {
        if line.is_empty() {
            break;
        }
        let (name, value) = line.split_once(':').unwrap();
        headers.push((name.trim().to_string(), value.trim().to_string()));
    }
    let body: Vec<u8> = lines.collect::<Vec<&str>>().join("\n").into_bytes();
    Response {
        version,
        status,
        reason,
        headers,
        body: Some(body),
        elapsed_ms: 3,
        request_line: request_line.to_string(),
    }
}

fn make_standard_configs(
    port: u16,
) -> (ClientConfig, ConnectionConfig, RequestConfig, CheckParameters) {
    (
        ClientConfig {
            url: format!("http://{}:{}", LOCALHOST_DNS, port),
            method: Method::Get,
            user_agent: None,
            headers: None,
            timeout: Duration::from_secs(1),
            auth_user: None,
            auth_pw: None,
        },
        ConnectionConfig { onredirect: OnRedirect::Follow, max_redirs: 10, force_ip: None },
        RequestConfig { without_body: false },
        CheckParameters {
            onredirect: OnRedirect::Follow,
            page_size: None,
            response_time_levels: None,
            document_age_levels: None,
            timeout: Duration::from_secs(1),
        },
    )
}

fn check_http_output(
    http_response: &str,
    expected_http_payload_start: &str,
    expected_state: State,
    expected_summary_start: &str,
) {
    let (client_cfg, connection_cfg, request_cfg, check_params) = make_standard_configs(8888);
    let request = request_of(&connection_cfg, &request_cfg, &start(&client_cfg));
    assert_eq!(request.url, "http://localhost:8888");
    let check_http_payload = request_line(client_cfg.method, "/", None);
    let script =
        vec![HopEvent::Answered(parse_response(http_response, &check_http_payload), peer())];

    let output = Output::from_check_results(collect_checks(
        &client_cfg,
        &connection_cfg,
        &check_params,
        script,
        0,
    ));

    assert!(check_http_payload.starts_with(expected_http_payload_start));
    assert!(output.worst_state == expected_state);
    assert!(output.to_string().starts_with(expected_summary_start));
    assert_eq!(output.details, vec![check_http_payload]);
}

#[test]
fn test_basic_get() {
    check_http_output(
        "HTTP/1.1 200 OK\nConnection: close\n\n",
        "GET / HTTP/1.1",
        State::Okay,
        "HTTP OK - HTTP/1.1 200 OK",
    )
}

#[test]
fn test_status_4xx() {
    check_http_output(
        "HTTP/1.1 401 nope\nConnection: close\n\n",
        "GET / HTTP/1.1",
        State::Warn,
        "HTTP WARNING - HTTP/1.1 401 Unauthorized",
    )
}

#[test]
fn test_basic_get_whole_output() {
    let (client_cfg, connection_cfg, _, check_params) = make_standard_configs(8888);
    let script = vec![HopEvent::Answered(
        parse_response("HTTP/1.1 200 OK\nConnection: close\n\n", "GET / HTTP/1.1"),
        peer(),
    )];
    let results = collect_checks(&client_cfg, &connection_cfg, &check_params, script, 0);
    assert_eq!(results.len(), 1);
    let output = Output::from_check_results(results);
    assert_eq!(output.summary, "HTTP OK - HTTP/1.1 200 OK");
    assert_eq!(output.details, vec!["GET / HTTP/1.1".to_string()]);
    assert_eq!(output.to_string(), "HTTP OK - HTTP/1.1 200 OK\nGET / HTTP/1.1");
}

#[test]
fn test_timeout_is_critical_and_named() {
    let (client_cfg, connection_cfg, _, check_params) = make_standard_configs(8888);
    let script = vec![HopEvent::Failed(TransportError::Timeout)];
    let results = collect_checks(&client_cfg, &connection_cfg, &check_params, script, 0);
    assert_eq!(results.len(), 1);
    let output = Output::from_check_results(results);
    assert_eq!(output.worst_state, State::Crit);
    assert_eq!(output.to_string(), "HTTP CRITICAL - timeout: http://localhost:8888");
    assert!(!output.to_string().contains("connection failed"));
}

#[test]
fn test_every_transport_failure() {
    let cases = [
        (TransportError::Resolution, State::Unknown, "name resolution failed: http://h/"),
        (TransportError::Connection, State::Crit, "connection failed: http://h/"),
        (TransportError::Timeout, State::Crit, "timeout: http://h/"),
        (TransportError::Protocol, State::Unknown, "malformed response: http://h/"),
    ];
    for (error, state, summary) in cases {
        let (mut client_cfg, connection_cfg, _, _) = make_standard_configs(1);
        client_cfg.url = "http://h/".to_string();
        match step(&connection_cfg, start(&client_cfg), HopEvent::Failed(error)) {
            WalkState::Failed(e) => {
                let result = check_failure(&e);
                assert_eq!(result.state, state);
                assert_eq!(result.summary, summary);
                assert_eq!(result.details, None);
            }
            other => panic!("unexpected {:?}", other),
        }
    }
}

#[test]
fn test_unfinished_walk_is_unknown() {
    let (client_cfg, connection_cfg, _, check_params) = make_standard_configs(8888);
    let results = collect_checks(&client_cfg, &connection_cfg, &check_params, vec![], 0);
    assert_eq!(results.len(), 1);
    assert_eq!(results[0].state, State::Unknown);
    assert_eq!(results[0].summary, "no response: http://localhost:8888");
}

fn redirect(location: &str) -> HopEvent {
    HopEvent::Answered(
        parse_response(
            &format!("HTTP/1.1 302 Found\nLocation: {}\n\n", location),
            "GET / HTTP/1.1",
        ),
        peer(),
    )
}

fn ok() -> HopEvent {
    HopEvent::Answered(parse_response("HTTP/1.1 200 OK\n\n", "GET / HTTP/1.1"), peer())
}

fn client(url: &str) -> ClientConfig {
    let (mut client_cfg, _, _, _) = make_standard_configs(1);
    client_cfg.url = url.to_string();
    client_cfg
}

fn policy(onredirect: OnRedirect, max_redirs: usize) -> ConnectionConfig {
    ConnectionConfig { onredirect, max_redirs, force_ip: None }
}

#[test]
fn test_chain_within_limit_ends_in_last_response() {
    for max in 0..5usize {
        for n in 0..=max {
            let mut script: Vec<HopEvent> = (0..n).map(|i| redirect(&format!("/r{}", i))).collect();
            script.push(ok());
            let end = walk(&policy(OnRedirect::Follow, max), start(&client("http://h/")), script);
            match end {
                WalkState::StoppedOk(response) => {
                    assert_eq!(response.status(), 200);
                    assert_eq!(response.redirects, n);
                }
                other => panic!("unexpected {:?}", other),
            }
        }
    }
}

#[test]
fn test_chain_beyond_limit_is_too_many_redirects() {
    for max in 0..5usize {
        let mut script: Vec<HopEvent> =
            (0..max + 1).map(|i| redirect(&format!("/r{}", i))).collect();
        script.push(ok());
        script.push(ok());
        let end = walk(&policy(OnRedirect::Sticky, max), start(&client("http://h/")), script);
        match &end {
            WalkState::StoppedLimit(error) => {
                assert_eq!(error.kind, WalkErrorKind::RedirectLimit);
                let expected =
                    if max == 0 { "http://h/".to_string() } else { format!("http://h/r{}", max - 1) };
                assert_eq!(error.target, expected);
            }
            other => panic!("unexpected {:?}", other),
        }
        let (_, _, _, check_params) = make_standard_configs(1);
        let output = Output::from_check_results(check_walk(&end, &check_params, 0));
        assert_eq!(output.worst_state, State::Crit);
        assert!(output.summary.starts_with("HTTP CRITICAL - too many redirects: "));
    }
}

#[test]
fn test_walk_under_way_after_each_redirect() {
    for n in 0..=4usize {
        let script: Vec<HopEvent> = (0..n).map(|i| redirect(&format!("/r{}", i))).collect();
        let end = walk(&policy(OnRedirect::Follow, 4), start(&client("http://h/")), script);
        match end {
            WalkState::Following(now) => {
                assert_eq!(now.hops, n);
                let expected =
                    if n == 0 { "http://h/".to_string() } else { format!("http://h/r{}", n - 1) };
                assert_eq!(now.url, expected);
            }
            other => panic!("unexpected {:?}", other),
        }
    }
}

#[test]
fn test_circular_redirect_ends() {
    let script: Vec<HopEvent> = (0..50).map(|_| redirect("/")).collect();
    let end = walk(&policy(OnRedirect::Follow, 10), start(&client("http://h/")), script);
    assert!(matches!(end, WalkState::StoppedLimit(_)));
}

#[test]
fn test_redirect_targets() {
    let cases = [
        ("http://h/a/b.html", "c.png", "http://h/a/c.png"),
        ("http://h/a/b/", "c.png", "http://h/a/b/c.png"),
        ("https://alice.com/a", "/v1/meta", "https://alice.com/v1/meta"),
        ("https://alice.com/a", "http://eve.com/b", "http://eve.com/b"),
        ("https://alice.com/a", "//eve.com/b", "https://eve.com/b"),
    ];
    for (base, location, expected) in cases {
        match step(&policy(OnRedirect::Follow, 3), start(&client(base)), redirect(location)) {
            WalkState::Following(next) => {
                assert_eq!(next.url, expected);
                assert_eq!(next.hops, 1);
                assert_eq!(next.origin, Some(peer()));
            }
            other => panic!("unexpected {:?}", other),
        }
    }
}

#[test]
fn test_redirect_that_leads_nowhere_is_malformed() {
    let end = step(&policy(OnRedirect::Follow, 3), start(&client("not a url")), redirect("/x"));
    match end {
        WalkState::Failed(error) => {
            assert_eq!(error.kind, WalkErrorKind::Protocol);
            assert_eq!(error.target, "not a url");
        }
        other => panic!("unexpected {:?}", other),
    }
    let end = step(
        &policy(OnRedirect::Follow, 3),
        start(&client("http://h/")),
        redirect("http://[broken"),
    );
    assert!(matches!(end, WalkState::Failed(_)));
}

#[test]
fn test_redirect_not_followed_by_policy() {
    for (mode, state, name) in [
        (OnRedirect::Warning, State::Warn, "WARNING"),
        (OnRedirect::Unknown, State::Unknown, "UNKNOWN"),
    ] {
        let end = walk(&policy(mode, 10), start(&client("http://h/")), vec![redirect("/x"), ok()]);
        match &end {
            WalkState::StoppedByPolicy(response) => {
                assert_eq!(response.status(), 302);
                assert_eq!(response.redirects, 0);
            }
            other => panic!("unexpected {:?}", other),
        }
        let (_, _, _, mut check_params) = make_standard_configs(1);
        check_params.onredirect = mode;
        let output = Output::from_check_results(check_walk(&end, &check_params, 0));
        assert_eq!(output.worst_state, state);
        assert_eq!(output.summary, format!("HTTP {} - HTTP/1.1 302 Found", name));
    }
}

#[test]
fn test_redirect_without_location_is_final() {
    let event =
        HopEvent::Answered(parse_response("HTTP/1.1 304 x\n\n", "GET / HTTP/1.1"), peer());
    let end = step(&policy(OnRedirect::Follow, 10), start(&client("http://h/")), event);
    match end {
        WalkState::StoppedOk(response) => {
            let result = check_status(&response, OnRedirect::Follow);
            assert_eq!(result.state, State::Okay);
            assert_eq!(result.summary, "HTTP/1.1 304 Not Modified");
        }
        other => panic!("unexpected {:?}", other),
    }
}

#[test]
fn test_address_rules() {
    let behavior = RequestConfig { without_body: true };
    let forced = IpAddress::V4(0x0a00_0001);
    let first = start(&client("http://h/"));
    let request = request_of(&policy(OnRedirect::Sticky, 3), &behavior, &first);
    assert_eq!(request.address, AddressRule::Resolve);
    assert!(!request.with_body);
    let with_forced =
        ConnectionConfig { onredirect: OnRedirect::Follow, max_redirs: 3, force_ip: Some(forced) };
    assert_eq!(request_of(&with_forced, &behavior, &first).address, AddressRule::Ip(forced));

    for (mode, force_ip, expected) in [
        (OnRedirect::Follow, None, AddressRule::Resolve),
        (OnRedirect::Follow, Some(forced), AddressRule::Ip(forced)),
        (OnRedirect::Sticky, None, AddressRule::Ip(peer().ip)),
        (OnRedirect::Sticky, Some(forced), AddressRule::Ip(forced)),
        (OnRedirect::StickyPort, None, AddressRule::IpAndPort(peer().ip, 8888)),
        (OnRedirect::StickyPort, Some(forced), AddressRule::IpAndPort(forced, 8888)),
    ] {
        let policy = ConnectionConfig { onredirect: mode, max_redirs: 3, force_ip };
        match step(&policy, start(&client("http://h/")), redirect("http://other/x")) {
            WalkState::Following(next) => {
                let request = request_of(&policy, &RequestConfig { without_body: false }, &next);
                assert_eq!(request.url, "http://other/x");
                assert_eq!(request.address, expected);
                assert!(request.with_body);
            }
            other => panic!("unexpected {:?}", other),
        }
    }
}

#[test]
fn test_origin_is_the_first_peer() {
    let policy = policy(OnRedirect::Sticky, 5);
    let second = SocketAddress { ip: IpAddress::V6(1), port: 443 };
    let first = match step(&policy, start(&client("http://h/")), redirect("/a")) {
        WalkState::Following(next) => next,
        other => panic!("unexpected {:?}", other),
    };
    let event = HopEvent::Answered(
        parse_response("HTTP/1.1 301 Moved\nlocation: /b\n\n", "GET /a HTTP/1.1"),
        second,
    );
    match step(&policy, first, event) {
        WalkState::Following(next) => {
            assert_eq!(next.url, "http://h/b");
            assert_eq!(next.hops, 2);
            assert_eq!(next.origin, Some(peer()));
        }
        other => panic!("unexpected {:?}", other),
    }
}

fn result(state: State, summary: &str) -> CheckResult {
    CheckResult { state, summary: summary.to_string(), details: None }
}

#[test]
fn test_worst_state_ignores_order() {
    let states = [State::Okay, State::Warn, State::Crit, State::Unknown];
    for a in states {
        for b in states {
            for c in states {
                let expected = a.max(b).max(c);
                let orders = [[a, b, c], [a, c, b], [b, a, c], [b, c, a], [c, a, b], [c, b, a]];
                for order in orders {
                    let results: Vec<CheckResult> =
                        order.iter().map(|s| result(*s, "x")).collect();
                    assert_eq!(worst(&results), expected);
                    assert_eq!(Output::from_check_results(results).worst_state, expected);
                }
                assert_eq!(a.worse(b).worse(c), a.worse(b.worse(c)));
                assert_eq!(a.worse(b), b.worse(a));
            }
        }
    }
}

#[test]
fn test_no_verdict_is_unknown() {
    let output = Output::from_check_results(vec![]);
    assert_eq!(output.worst_state, State::Unknown);
    assert_eq!(output.to_string(), "HTTP UNKNOWN");
}

#[test]
fn test_summary_joins_in_order() {
    let output = Output::from_check_results(vec![
        result(State::Okay, "first"),
        CheckResult {
            state: State::Crit,
            summary: "second".to_string(),
            details: Some("more on second".to_string()),
        },
        result(State::Warn, "third"),
        CheckResult {
            state: State::Okay,
            summary: "fourth".to_string(),
            details: Some("more on fourth".to_string()),
        },
    ]);
    assert_eq!(output.worst_state, State::Crit);
    assert_eq!(output.summary, "HTTP CRITICAL - first, second, third, fourth");
    assert_eq!(
        output.to_string(),
        "HTTP CRITICAL - first, second, third, fourth\nmore on second\nmore on fourth"
    );
}

#[test]
fn test_state_names_and_exit_codes() {
    assert_eq!((State::Okay.name(), State::Okay.exit_code()), ("OK", 0));
    assert_eq!((State::Warn.name(), State::Warn.exit_code()), ("WARNING", 1));
    assert_eq!((State::Crit.name(), State::Crit.exit_code()), ("CRITICAL", 2));
    assert_eq!((State::Unknown.name(), State::Unknown.exit_code()), ("UNKNOWN", 3));
}

#[test]
fn test_response_time_thresholds() {
    let levels = UpperLevels { warn: 100, crit: 200 };
    let at = |ms: u64| check_response_time(ms, Some(levels)).unwrap();
    assert_eq!(at(200).state, State::Crit);
    assert_eq!(at(201).state, State::Crit);
    assert_eq!(at(u64::MAX).state, State::Crit);
    assert_eq!(at(199).state, State::Warn);
    assert_eq!(at(100).state, State::Warn);
    assert_eq!(at(99).state, State::Okay);
    assert_eq!(at(0).state, State::Okay);
    assert_eq!(at(123).summary, "Response time: 123 ms");
    assert_eq!(at(123).details, None);
    assert_eq!(check_response_time(500, None), None);
    let same = UpperLevels { warn: 100, crit: 100 };
    assert_eq!(check_response_time(100, Some(same)).unwrap().state, State::Crit);
    assert_eq!(UpperLevels::new(1, 2), Some(UpperLevels { warn: 1, crit: 2 }));
    assert_eq!(UpperLevels::new(2, 2), Some(UpperLevels { warn: 2, crit: 2 }));
    assert_eq!(UpperLevels::new(3, 2), None);
}

#[test]
fn test_page_size_bounds() {
    let both = Bounds { min: Some(10), max: Some(20) };
    let at = |size: usize, bounds: Bounds| check_page_size(Some(size), Some(bounds)).unwrap();
    assert_eq!(at(9, both).state, State::Warn);
    assert_eq!(at(10, both).state, State::Okay);
    assert_eq!(at(20, both).state, State::Okay);
    assert_eq!(at(21, both).state, State::Warn);
    assert_eq!(at(0, Bounds { min: None, max: Some(5) }).state, State::Okay);
    assert_eq!(at(6, Bounds { min: None, max: Some(5) }).state, State::Warn);
    assert_eq!(at(4, Bounds { min: Some(5), max: None }).state, State::Warn);
    assert_eq!(at(usize::MAX, Bounds { min: Some(5), max: None }).state, State::Okay);
    assert_eq!(at(7, Bounds { min: None, max: None }).state, State::Okay);
    assert_eq!(at(1234, both).summary, "Page size: 1234 Bytes");
    assert_eq!(check_page_size(None, Some(both)), None);
    assert_eq!(check_page_size(Some(5), None), None);
    assert_eq!(Bounds::new(Some(3), Some(2)), None);
    assert_eq!(Bounds::new(Some(2), Some(2)), Some(Bounds { min: Some(2), max: Some(2) }));
    assert_eq!(Bounds::new(None, Some(2)), Some(Bounds { min: None, max: Some(2) }));
}

fn header(name: &str, value: &str) -> (String, String) {
    (name.to_string(), value.to_string())
}

#[test]
fn test_document_age() {
    // Sun, 06 Nov 1994 08:49:37 GMT is 784111777 seconds after 1970.
    let modified: u64 = 784111777;
    let headers = vec![
        header("Connection", "close"),
        header("LAST-Modified", "Sun, 06 Nov 1994 08:49:37 GMT"),
    ];
    let levels = Some(UpperLevels { warn: 60, crit: 3600 });
    let at = |now: u64| check_document_age(now, &headers, levels).unwrap();
    assert_eq!(at(modified + 59).state, State::Okay);
    assert_eq!(at(modified + 60).state, State::Warn);
    assert_eq!(at(modified + 3599).state, State::Warn);
    assert_eq!(at(modified + 3600).state, State::Crit);
    assert_eq!(at(modified + 75).summary, "Document age: 75 seconds");
    assert_eq!(at(modified - 10).state, State::Okay);
    assert_eq!(at(modified - 10).summary, "Document age: 0 seconds");
    assert_eq!(check_document_age(modified + 5000, &headers, None), None);
    for text in ["Sunday, 06-Nov-94 08:49:37 GMT", "Sun Nov  6 08:49:37 1994"] {
        let headers = vec![header("last-modified", text)];
        let result = check_document_age(modified + 75, &headers, levels).unwrap();
        assert_eq!(result.summary, "Document age: 75 seconds");
    }
}

#[test]
fn test_document_age_without_indicator_is_skipped() {
    let levels = Some(UpperLevels { warn: 0, crit: 0 });
    assert_eq!(check_document_age(1_000_000, &vec![], levels), None);
    let headers = vec![header("Date", "Sun, 06 Nov 1994 08:49:37 GMT")];
    assert_eq!(check_document_age(1_000_000, &headers, levels), None);

    let (_, _, _, mut check_params) = make_standard_configs(1);
    let response = FinalResponse {
        response: parse_response("HTTP/1.1 200 OK\nConnection: close\n\n", "GET / HTTP/1.1"),
        redirects: 0,
    };
    let without_rule = check_response(&response, &check_params, 1_000_000).len();
    check_params.document_age_levels = levels;
    assert_eq!(check_response(&response, &check_params, 1_000_000).len(), without_rule);
}

#[test]
fn test_document_age_undecodable() {
    let levels = Some(UpperLevels { warn: 60, crit: 3600 });
    let headers = vec![header("Last-Modified", "yesterday")];
    let result = check_document_age(1_000_000, &headers, levels).unwrap();
    assert_eq!(result.state, State::Unknown);
    assert_eq!(result.summary, "Can't decode document age");
}

#[test]
fn test_all_rules_in_order() {
    let response = FinalResponse {
        response: Response {
            version: Version::Http10,
            status: 503,
            reason: "busy".to_string(),
            headers: vec![header("last-modified", "Thu, 01 Jan 1970 00:00:10 GMT")],
            body: Some(vec![0u8; 12]),
            elapsed_ms: 1500,
            request_line: "HEAD /x HTTP/1.0".to_string(),
        },
        redirects: 2,
    };
    let params = CheckParameters {
        onredirect: OnRedirect::Follow,
        page_size: Some(Bounds { min: Some(100), max: None }),
        response_time_levels: Some(UpperLevels { warn: 1000, crit: 2000 }),
        document_age_levels: Some(UpperLevels { warn: 10, crit: 20 }),
        timeout: Duration::from_secs(1),
    };
    assert!(params.is_well_formed());
    assert_eq!(response.body_len(), Some(12));
    let results = check_response(&response, &params, 15);
    assert_eq!(
        results,
        vec![
            CheckResult {
                state: State::Crit,
                summary: "HTTP/1.0 503 Service Unavailable".to_string(),
                details: Some("HEAD /x HTTP/1.0".to_string()),
            },
            result(State::Warn, "Response time: 1500 ms"),
            result(State::Warn, "Page size: 12 Bytes"),
            result(State::Okay, "Document age: 5 seconds"),
        ]
    );
    let output = Output::from_check_results(results);
    assert_eq!(output.worst_state, State::Crit);
    assert_eq!(
        output.to_string(),
        "HTTP CRITICAL - HTTP/1.0 503 Service Unavailable, Response time: 1500 ms, \
         Page size: 12 Bytes, Document age: 5 seconds\nHEAD /x HTTP/1.0"
    );
}

#[test]
fn test_status_classes() {
    let with_status = |status: u16| FinalResponse {
        response: Response {
            version: Version::Http11,
            status,
            reason: String::new(),
            headers: vec![],
            body: None,
            elapsed_ms: 0,
            request_line: String::new(),
        },
        redirects: 0,
    };
    let state = |status: u16, mode: OnRedirect| check_status(&with_status(status), mode).state;
    for mode in [OnRedirect::Follow, OnRedirect::Warning, OnRedirect::Unknown] {
        assert_eq!(state(200, mode), State::Okay);
        assert_eq!(state(299, mode), State::Okay);
        assert_eq!(state(400, mode), State::Warn);
        assert_eq!(state(499, mode), State::Warn);
        assert_eq!(state(500, mode), State::Crit);
        assert_eq!(state(599, mode), State::Crit);
        assert_eq!(state(199, mode), State::Unknown);
        assert_eq!(state(600, mode), State::Unknown);
        assert_eq!(state(0, mode), State::Unknown);
    }
    assert_eq!(state(300, OnRedirect::Warning), State::Warn);
    assert_eq!(state(399, OnRedirect::Warning), State::Warn);
    assert_eq!(state(302, OnRedirect::Unknown), State::Unknown);
    assert_eq!(state(302, OnRedirect::Follow), State::Okay);
    assert_eq!(state(302, OnRedirect::Sticky), State::Okay);
    assert_eq!(state(302, OnRedirect::StickyPort), State::Okay);
}

#[test]
fn test_status_lines() {
    assert_eq!(status_line(Version::Http11, 200), "HTTP/1.1 200 OK");
    assert_eq!(status_line(Version::Http11, 401), "HTTP/1.1 401 Unauthorized");
    assert_eq!(status_line(Version::Http09, 418), "HTTP/0.9 418 I'm a teapot");
    assert_eq!(status_line(Version::H2, 299), "HTTP/2.0 299 <unknown status code>");
    assert_eq!(status_line(Version::H3, 99), "HTTP/3.0 99 <unknown status code>");
    assert_eq!(status_line(Version::Http10, 65535), "HTTP/1.0 65535 <unknown status code>");
    assert_eq!(status_line_with(Version::Http11, 7, Some("seven")), "HTTP/1.1 7 seven");
    assert_eq!(status_line_with(Version::Http11, 7, None), "HTTP/1.1 7 <unknown status code>");
}

#[test]
fn test_request_lines() {
    assert_eq!(request_line(Method::Get, "/", None), "GET / HTTP/1.1");
    assert_eq!(request_line(Method::Head, "/a/b", Some("x=1&y=2")), "HEAD /a/b?x=1&y=2 HTTP/1.1");
    assert_eq!(request_line(Method::Post, "/p", Some("")), "POST /p? HTTP/1.1");
    assert_eq!(request_line(Method::Put, "", None), "PUT  HTTP/1.1");
    assert_eq!(request_line(Method::Delete, "/d", None), "DELETE /d HTTP/1.1");
    assert_eq!(request_line(Method::Connect, "/", None), "CONNECT / HTTP/1.1");
    assert_eq!(request_line(Method::Options, "*", None), "OPTIONS * HTTP/1.1");
    assert_eq!(request_line(Method::Trace, "/", None), "TRACE / HTTP/1.1");
    assert_eq!(request_line(Method::Patch, "/", None), "PATCH / HTTP/1.1");
}

#[test]
fn test_find_header() {
    let headers = vec![header("Content-Type", "a"), header("LOCATION", "b"), header("location", "c")];
    assert_eq!(find_header(&headers, "location"), Some(&"b".to_string()));
    assert_eq!(find_header(&headers, "Location"), Some(&"b".to_string()));
    assert_eq!(find_header(&headers, "content-type"), Some(&"a".to_string()));
    assert_eq!(find_header(&headers, "content"), None);
    assert_eq!(find_header(&vec![], "location"), None);
    assert!(!has_unique_names(&headers));
    assert!(has_unique_names(&headers[..2].to_vec()));
    assert!(has_unique_names(&vec![]));
    let mut config = client("http://h/");
    assert!(config.is_well_formed());
    config.headers = Some(headers);
    assert!(!config.is_well_formed());
}

#[test]
fn test_decimal_and_join() {
    assert_eq!(decimal(0), "0");
    assert_eq!(decimal(9), "9");
    assert_eq!(decimal(10), "10");
    assert_eq!(decimal(1234567890), "1234567890");
    assert_eq!(decimal(u64::MAX), "18446744073709551615");
    assert_eq!(join(&vec![], ", "), "");
    assert_eq!(join(&vec!["a".to_string()], ", "), "a");
    assert_eq!(join(&vec!["a".to_string(), "".to_string(), "c".to_string()], ", "), "a, , c");
}
