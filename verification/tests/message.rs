use http::header::FORWARDED;
use http::{HeaderMap, HeaderValue, Method, Uri};
use inbound::forwarded::{
    checked_forwarded_host, host_of, parse_forwarded_host, Forwarded, ForwardedHost,
};
use inbound::inbound::Inbound;
use inbound::message::{H2Request, BAGGAGE_HEADER, FORWARDED_HEADER, TRACEPARENT_HEADER};
use inbound::response::{build_response, StatusCode};
use inbound::traceparent::TraceParent;

fn request(headers: Vec<(&str, &[u8])>) -> H2Request {
    let mut map = HeaderMap::new();
    for (name, value) in headers {
        map.append(
            http::HeaderName::from_bytes(name.as_bytes()).unwrap(),
            HeaderValue::from_bytes(value).unwrap(),
        );
    }
    H2Request {
        method: Method::CONNECT,
        uri: "10.0.0.2:8080".parse::<Uri>().unwrap(),
        headers: map,
    }
}

const FRESH: TraceParent = TraceParent {
    version: 0,
    trace_id: 42,
    parent_id: 43,
    flags: 0,
};

const SAMPLE: &str = "00-4bf92f3577b34da6a3ce929d0e0e4736-00f067aa0ba902b7-01";

#[test]
fn traceparent_is_read() {
    let got = Inbound::extract_traceparent(&request(vec![("traceparent", SAMPLE.as_bytes())]), FRESH);
    assert_eq!(
        got,
        TraceParent {
            version: 0,
            trace_id: 0x4bf92f3577b34da6a3ce929d0e0e4736,
            parent_id: 0x00f067aa0ba902b7,
            flags: 1,
        }
    );
    assert_eq!(
        Inbound::carried_traceparent(&request(vec![("traceparent", SAMPLE.as_bytes())])),
        Some(got)
    );
    let upper = SAMPLE.to_uppercase();
    assert_eq!(
        Inbound::extract_traceparent(&request(vec![("Traceparent", upper.as_bytes())]), FRESH),
        got
    );
}

#[test]
fn traceparent_of_the_first_header_counts() {
    let other = "ff-ffffffffffffffffffffffffffffffff-ffffffffffffffff-ff";
    let req = request(vec![
        (TRACEPARENT_HEADER, other.as_bytes()),
        (TRACEPARENT_HEADER, SAMPLE.as_bytes()),
    ]);
    assert_eq!(
        Inbound::extract_traceparent(&req, FRESH),
        TraceParent {
            version: 255,
            trace_id: u128::MAX,
            parent_id: u64::MAX,
            flags: 255,
        }
    );
}

#[test]
fn missing_or_malformed_traceparent_is_made_up() {
    assert_eq!(Inbound::extract_traceparent(&request(vec![]), FRESH), FRESH);
    assert_eq!(Inbound::carried_traceparent(&request(vec![])), None);
    let mut not_text = SAMPLE.as_bytes().to_vec();
    not_text[0] = 0x80;
    assert_eq!(
        Inbound::extract_traceparent(&request(vec![("traceparent", &not_text)]), FRESH),
        FRESH
    );
    for bad in [
        "",
        "00",
        "00-4bf92f3577b34da6a3ce929d0e0e4736-00f067aa0ba902b7-0",
        "00-4bf92f3577b34da6a3ce929d0e0e4736-00f067aa0ba902b7-011",
        "00_4bf92f3577b34da6a3ce929d0e0e4736-00f067aa0ba902b7-01",
        "00-4bf92f3577b34da6a3ce929d0e0e473g-00f067aa0ba902b7-01",
        "+0-4bf92f3577b34da6a3ce929d0e0e4736-00f067aa0ba902b7-01",
    ] {
        assert_eq!(TraceParent::try_from(bad), None);
        assert_eq!(
            Inbound::extract_traceparent(&request(vec![("traceparent", bad.as_bytes())]), FRESH),
            FRESH
        );
    }
    assert_eq!(
        TraceParent::try_from("00-4bf92f3577b34da6a3ce929d0e0e473\u{e9}-00f067aa0ba902b7-0"),
        None
    );
}

#[test]
fn forwarded_host_is_read() {
    assert_eq!(FORWARDED_HEADER, FORWARDED.as_str());
    let host = |value: &str| parse_forwarded_host(&request(vec![("forwarded", value.as_bytes())]));
    assert_eq!(
        host("for=client.com;by=proxy.com;host=host.com;proto=https"),
        Some("host.com".to_string())
    );
    assert_eq!(
        host("for=a, for=b;host=\"svc.ns:80\""),
        Some("svc.ns:80".to_string())
    );
    assert_eq!(host("for=a;by=b"), None);
    assert_eq!(host("for=for, key=value"), None);
    assert_eq!(host("host=a;host=b"), None);
    assert_eq!(host("Host=a"), None);
    assert_eq!(host(""), None);
    assert_eq!(parse_forwarded_host(&request(vec![])), None);
    assert_eq!(
        parse_forwarded_host(&request(vec![("forwarded", b"host=\x80")])),
        None
    );
    assert_eq!(
        parse_forwarded_host(&request(vec![
            ("forwarded", b"host=first"),
            ("forwarded", b"host=second")
        ])),
        Some("first".to_string())
    );
}

#[test]
fn forwarded_list_that_breaks_off_is_told_apart() {
    let host =
        |value: &str| checked_forwarded_host(&request(vec![("forwarded", value.as_bytes())]));
    for cut in [
        "for=a,", "for=a, ", "for=a, f", "for=a,fo", "for=a, \t for", "for=\"x\",", "by=b;for=a, x",
        "FOR=a,for=b,,", "for=a,,,",
    ] {
        assert!(matches!(host(cut), ForwardedHost::Overrun), "{cut}");
    }
    for whole in ["for=a, for=b", "for=a, nope", "x,", "host=a, b", "host=a;,", ","] {
        assert!(matches!(host(whole), ForwardedHost::Parsed(None)), "{whole}");
    }
    assert!(matches!(
        host("host=\"a,b\""),
        ForwardedHost::Parsed(Some(h)) if h == "a,b"
    ));
    assert!(matches!(
        host("for=x;host=y"),
        ForwardedHost::Parsed(Some(h)) if h == "y"
    ));
    assert!(matches!(
        checked_forwarded_host(&request(vec![])),
        ForwardedHost::Parsed(None)
    ));
}

#[test]
fn host_of_what_the_parser_gave() {
    assert_eq!(host_of(None), None);
    assert_eq!(host_of(Some(Forwarded { host: None })), None);
    assert_eq!(
        host_of(Some(Forwarded {
            host: Some("h".to_string())
        })),
        Some("h".to_string())
    );
}

#[test]
fn request_parts() {
    let mut req = request(vec![
        (BAGGAGE_HEADER, b"k8s.cluster.name=c"),
        ("other", b"x"),
        (BAGGAGE_HEADER, b"\x80"),
    ]);
    assert!(req.is_connect());
    assert_eq!(req.method_string(), "CONNECT");
    assert_eq!(req.uri_string(), "10.0.0.2:8080");
    assert_eq!(
        req.baggage_values(),
        vec![b"k8s.cluster.name=c".to_vec(), vec![0x80]]
    );
    assert_eq!(req.header_text("other"), Some("x"));
    assert_eq!(req.header_text("missing"), None);
    req.method = Method::from_bytes(b"CONNECTED").unwrap();
    req.uri = "https://svc.ns:80/path?q=1".parse().unwrap();
    assert!(!req.is_connect());
    assert_eq!(req.method_string(), "CONNECTED");
    assert_eq!(req.uri_string(), "https://svc.ns:80/path?q=1");
    req.method = Method::from_bytes(b"CONNECT").unwrap();
    assert!(req.is_connect());
    assert!(request(vec![]).baggage_values().is_empty());
}

#[test]
fn responses_have_their_status() {
    for (status, number) in [
        (StatusCode::OK, 200),
        (StatusCode::BadRequest, 400),
        (StatusCode::Unauthorized, 401),
        (StatusCode::NotFound, 404),
        (StatusCode::ServiceUnavailable, 503),
    ] {
        assert_eq!(status.as_u16(), number);
        let response = build_response(status.as_u16());
        assert_eq!(response.status().as_u16(), number);
        assert_eq!(response.version(), http::Version::HTTP_11);
        assert!(response.headers().is_empty());
    }
}

#[test]
fn every_status_code_has_a_response() {
    for number in 100..1000 {
        let response = build_response(number);
        assert_eq!(response.status().as_u16(), number);
        assert_eq!(response.body(), &());
        assert!(response.extensions().is_empty());
        assert_eq!(response.version(), http::Version::HTTP_11);
        assert!(response.headers().is_empty());
    }
}
