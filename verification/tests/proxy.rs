//! What the proxy does with a request: routing, forwarding, the `Forwarded`
//! header, upgrades and static files.

use bytes::Bytes;
use http_body_util::Empty;
use hyper::header::{self, HeaderValue};
use hyper::Request;
use rxh::config::{Action, Algorithm, Backend, Forward, Pattern, Server, SocketAddress};
use hyper::Response;
use rxh::http::request::{
    forward_headers, forwarded, is_text, AddressText, ProxyRequest, NAMES_WITH_ROOM,
};
use rxh::http::response::{server_name, sign, LocalResponse, ProxyResponse};
use rxh::service::files::{content_type, CanonicalPath, Found, Step, Transfer};
use rxh::service::proxy::{forward, Forwarding, Outcome, Plan, Progress, SWITCHING_PROTOCOLS};
use rxh::service::{find_pattern, relative_path, Dispatch, Rxh};

fn local(port: u16) -> SocketAddress {
    SocketAddress::V4 {
        ip: 0x7f00_0001,
        port,
    }
}

fn pattern_forward(uri: &str, backends: Vec<Backend>) -> Pattern {
    Pattern {
        uri: String::from(uri),
        action: Action::Forward(Forward::new(backends, Algorithm::Wrr)),
    }
}

fn pattern_serve(uri: &str, root: &str) -> Pattern {
    Pattern {
        uri: String::from(uri),
        action: Action::Serve(String::from(root)),
    }
}

fn server(patterns: Vec<Pattern>) -> Server {
    Server {
        listen: vec![local(0)],
        replica: 0,
        patterns,
        max_connections: 1024,
        name: None,
        log_name: String::from("unnamed"),
    }
}

fn single_backend_with_uri(address: SocketAddress, uri: &str) -> Server {
    server(vec![pattern_forward(
        uri,
        vec![Backend { address, weight: 1 }],
    )])
}

fn single_backend(address: SocketAddress) -> Server {
    single_backend_with_uri(address, "/")
}

fn empty_request(uri: &str) -> Request<Empty<Bytes>> {
    Request::builder()
        .uri(uri)
        .body(Empty::<Bytes>::new())
        .unwrap()
}

fn written(address: &str) -> AddressText {
    AddressText::new(String::from(address)).unwrap()
}

fn proxied(request: Request<Empty<Bytes>>) -> ProxyRequest<Empty<Bytes>> {
    ProxyRequest::new(request, written("127.0.0.1:8000"), written("127.0.0.1:9000"))
}

#[test]
fn forwarded_request() {
    let client = String::from("127.0.0.1:8000");
    let proxy = String::from("127.0.0.1:9000");

    let request = ProxyRequest::new(
        Request::builder().body(Empty::<Bytes>::new()).unwrap(),
        written(&client),
        written(&proxy),
    );

    let forwarded = request.into_forwarded();
    let expected = format!("for={client};by={proxy};host={proxy}");

    assert!(forwarded.headers().contains_key(header::FORWARDED));
    assert_eq!(
        forwarded
            .headers()
            .get(header::FORWARDED)
            .unwrap()
            .to_str()
            .unwrap(),
        expected.as_str()
    );
}

#[test]
fn reverse_proxy_client() {
    let backend = local(8080);
    let config = single_backend(backend);
    let service = Rxh::new(&config, local(50000), local(9000));
    let request = proxied(empty_request("/"));

    let dispatch = service.call(&request);
    assert_eq!(
        dispatch,
        Dispatch::Forward {
            pattern: 0,
            to: backend
        }
    );

    let mut forwarding = forward(&request, backend);
    assert_eq!(forwarding.to, backend);
    assert!(!forwarding.upgrade);
    assert_eq!(
        forwarding.advance(Outcome::Dialed { connected: true }),
        Plan::Handshake
    );
    assert_eq!(
        forwarding.advance(Outcome::Handshaken { established: true }),
        Plan::Send { upgrade: false }
    );
    assert_eq!(
        forwarding.advance(Outcome::Responded { status: 200 }),
        Plan::Return
    );
    assert_eq!(forwarding.progress, Progress::Done);
}

#[test]
fn reverse_proxy_client_receives_404_on_bad_prefix() {
    let config = single_backend_with_uri(local(0), "/prefix");
    let service = Rxh::new(&config, local(50000), local(9000));

    let uris = ["/unknown", "/invalid", "/wrong", "/test/longer"];

    for uri in uris {
        assert_eq!(service.call(&proxied(empty_request(uri))), Dispatch::NotFound);
        assert_eq!(service.route(uri, uri), Dispatch::NotFound);
    }
    assert_eq!(LocalResponse::not_found().status, 404);

    assert_eq!(
        service.route("/prefix/page", "/prefix/page"),
        Dispatch::Forward {
            pattern: 0,
            to: local(0)
        }
    );
}

#[test]
fn reverse_proxy_client_receives_502_on_backend_server_not_available() {
    let mut forwarding = Forwarding::begin(local(8080), false);
    let plan = forwarding.advance(Outcome::Dialed { connected: false });
    assert_eq!(plan, Plan::Respond(LocalResponse::bad_gateway()));
    assert_eq!(forwarding.progress, Progress::Done);
    match plan {
        Plan::Respond(response) => {
            assert_eq!(response.status, 502);
            assert!(response.body.is_empty());
            assert_eq!(response.server, server_name());
        }
        _ => unreachable!(),
    }
}

#[test]
fn reverse_proxy_backend() {
    let client_addr = "127.0.0.1:54321";
    let proxy_addr = "127.0.0.1:9000";
    let request = ProxyRequest::new(empty_request("/"), written(client_addr), written(proxy_addr));
    let sent = request.into_forwarded();
    let forwarded = sent
        .headers()
        .get(header::FORWARDED)
        .unwrap()
        .to_str()
        .unwrap();

    assert_eq!(
        forwarded,
        format!("for={client_addr};by={proxy_addr};host={proxy_addr}")
    );
}

#[test]
fn forwarded_names_the_host_that_was_asked_for() {
    let request = Request::builder()
        .header(header::HOST, HeaderValue::from_static("example.com"))
        .body(Empty::<Bytes>::new())
        .unwrap();
    let sent = proxied(request).into_forwarded();
    assert_eq!(
        sent.headers().get(header::FORWARDED).unwrap(),
        "for=127.0.0.1:8000;by=127.0.0.1:9000;host=example.com"
    );
    assert_eq!(sent.headers().get(header::HOST).unwrap(), "example.com");
}

#[test]
fn forwarded_falls_back_when_host_is_not_text() {
    let request = Request::builder()
        .header(header::HOST, HeaderValue::from_bytes(b"caf\xe9").unwrap())
        .body(Empty::<Bytes>::new())
        .unwrap();
    let sent = proxied(request).into_forwarded();
    assert_eq!(
        sent.headers().get(header::FORWARDED).unwrap(),
        "for=127.0.0.1:8000;by=127.0.0.1:9000;host=127.0.0.1:9000"
    );
}

#[test]
fn forwarded_keeps_what_earlier_proxies_said() {
    let request = Request::builder()
        .header(header::FORWARDED, HeaderValue::from_static("for=192.0.2.43"))
        .header(header::HOST, HeaderValue::from_static("example.com"))
        .body(Empty::<Bytes>::new())
        .unwrap();
    let sent = proxied(request).into_forwarded();
    assert_eq!(
        sent.headers().get(header::FORWARDED).unwrap(),
        "for=192.0.2.43, for=127.0.0.1:8000;by=127.0.0.1:9000;host=example.com"
    );
    assert_eq!(sent.headers().get_all(header::FORWARDED).iter().count(), 1);
}

#[test]
fn forwarded_keeps_earlier_values_that_are_not_text() {
    let request = Request::builder()
        .header(header::FORWARDED, HeaderValue::from_bytes(b"for=\xff").unwrap())
        .body(Empty::<Bytes>::new())
        .unwrap();
    let sent = proxied(request).into_forwarded();
    assert_eq!(
        sent.headers().get(header::FORWARDED).unwrap().as_bytes(),
        &b"for=\xff, for=127.0.0.1:8000;by=127.0.0.1:9000;host=127.0.0.1:9000"[..]
    );
}

#[test]
fn forwarded_keeps_every_earlier_value() {
    let request = Request::builder()
        .header(header::FORWARDED, HeaderValue::from_static("for=192.0.2.43"))
        .header(
            header::FORWARDED,
            HeaderValue::from_static("for=198.51.100.17;by=203.0.113.60"),
        )
        .header(header::FORWARDED, HeaderValue::from_static("for=10.0.0.1"))
        .body(Empty::<Bytes>::new())
        .unwrap();
    let sent = proxied(request).into_forwarded();
    assert_eq!(sent.headers().get_all(header::FORWARDED).iter().count(), 1);
    assert_eq!(
        sent.headers().get(header::FORWARDED).unwrap(),
        "for=192.0.2.43, for=198.51.100.17;by=203.0.113.60, for=10.0.0.1, \
         for=127.0.0.1:8000;by=127.0.0.1:9000;host=127.0.0.1:9000"
    );
}

#[test]
fn forwarding_changes_nothing_but_the_forwarded_header() {
    let request = Request::builder()
        .method("PUT")
        .version(hyper::Version::HTTP_10)
        .uri("/upload?to=here")
        .header(header::HOST, HeaderValue::from_static("example.com"))
        .header(header::COOKIE, HeaderValue::from_bytes(b"id=\xfe\xff").unwrap())
        .header(header::ACCEPT, HeaderValue::from_static("text/html"))
        .header(header::ACCEPT, HeaderValue::from_static("text/plain"))
        .extension(42u8)
        .body(String::from("payload"))
        .unwrap();
    let sent = ProxyRequest::new(request, written("c:1"), written("s:2")).into_forwarded();
    assert_eq!(sent.method(), "PUT");
    assert_eq!(sent.version(), hyper::Version::HTTP_10);
    assert_eq!(sent.uri(), "/upload?to=here");
    assert_eq!(sent.extensions().get::<u8>(), Some(&42));
    assert_eq!(sent.body(), "payload");
    assert_eq!(sent.headers().keys_len(), 4);
    assert_eq!(sent.headers().len(), 5);
    assert_eq!(sent.headers().get(header::HOST).unwrap(), "example.com");
    assert_eq!(
        sent.headers().get(header::COOKIE).unwrap().as_bytes(),
        &b"id=\xfe\xff"[..]
    );
    let accepted: Vec<&HeaderValue> = sent.headers().get_all(header::ACCEPT).iter().collect();
    assert_eq!(accepted, vec!["text/html", "text/plain"]);
    assert_eq!(
        sent.headers().get(header::FORWARDED).unwrap(),
        "for=c:1;by=s:2;host=example.com"
    );
}

#[test]
fn forwarded_through_a_chain_of_proxies() {
    let hops = [
        ("192.0.2.43:4000", "198.51.100.17:80"),
        ("198.51.100.17:5000", "203.0.113.60:80"),
        ("203.0.113.60:6000", "10.0.0.1:8080"),
    ];
    let mut request = Request::builder()
        .header(header::HOST, HeaderValue::from_static("example.com"))
        .body(Empty::<Bytes>::new())
        .unwrap();
    for (client, server) in hops {
        request = ProxyRequest::new(request, written(client), written(server)).into_forwarded();
    }
    let value = request
        .headers()
        .get(header::FORWARDED)
        .unwrap()
        .to_str()
        .unwrap();
    let groups: Vec<&str> = value.split(", ").collect();
    assert_eq!(
        groups,
        vec![
            "for=192.0.2.43:4000;by=198.51.100.17:80;host=example.com",
            "for=198.51.100.17:5000;by=203.0.113.60:80;host=example.com",
            "for=203.0.113.60:6000;by=10.0.0.1:8080;host=example.com",
        ]
    );
}

#[test]
fn forwarded_value_from_plain_values() {
    let none: Vec<Vec<u8>> = Vec::new();
    let host = b"h".to_vec();
    assert_eq!(forwarded(&none, "c", "s", None), b"for=c;by=s;host=s");
    assert_eq!(
        forwarded(&none, "c", "s", Some(&host)),
        b"for=c;by=s;host=h"
    );
    assert_eq!(
        forwarded(&vec![b"for=x".to_vec()], "c", "s", None),
        b"for=x, for=c;by=s;host=s"
    );
    assert_eq!(
        forwarded(
            &vec![b"for=x, for=y".to_vec(), b"for=\xffz".to_vec()],
            "c",
            "s",
            Some(&host)
        ),
        b"for=x, for=y, for=\xffz, for=c;by=s;host=h"
    );
    assert_eq!(
        forwarded(&vec![Vec::new()], "", "", None),
        b", for=;by=;host="
    );
}

#[test]
fn forward_headers_leaves_the_rest_alone() {
    let mut headers = hyper::HeaderMap::new();
    headers.insert(header::ACCEPT, HeaderValue::from_static("text/html"));
    headers.append(header::FORWARDED, HeaderValue::from_static("for=a"));
    headers.append(header::FORWARDED, HeaderValue::from_static("for=b"));
    assert!(forward_headers(&mut headers, "1.2.3.4:5", "6.7.8.9:10"));
    assert_eq!(headers.len(), 2);
    assert_eq!(headers.get(header::ACCEPT).unwrap(), "text/html");
    assert_eq!(
        headers.get(header::FORWARDED).unwrap(),
        "for=a, for=b, for=1.2.3.4:5;by=6.7.8.9:10;host=6.7.8.9:10"
    );
}

fn headers_with_names(count: usize) -> hyper::HeaderMap {
    let mut headers = hyper::HeaderMap::new();
    for number in 0..count {
        let name = header::HeaderName::from_bytes(format!("x-{number}").as_bytes()).unwrap();
        headers
            .try_insert(name, HeaderValue::from_static("v"))
            .unwrap();
    }
    headers
}

#[test]
fn headers_with_room_take_one_more() {
    assert_eq!(NAMES_WITH_ROOM, 6553);

    let mut headers = headers_with_names(NAMES_WITH_ROOM);
    assert!(forward_headers(&mut headers, "c:1", "s:2"));
    assert_eq!(headers.keys_len(), NAMES_WITH_ROOM + 1);
    assert_eq!(headers.get("forwarded").unwrap(), "for=c:1;by=s:2;host=s:2");
    assert!(forward_headers(&mut headers, "d:3", "t:4"));
    assert_eq!(headers.keys_len(), NAMES_WITH_ROOM + 1);
    assert_eq!(
        headers.get("forwarded").unwrap(),
        "for=c:1;by=s:2;host=s:2, for=d:3;by=t:4;host=t:4"
    );

    let mut headers = headers_with_names(NAMES_WITH_ROOM);
    assert!(sign(&mut headers));
    assert_eq!(headers.keys_len(), NAMES_WITH_ROOM + 1);
    assert_eq!(headers.get("server").unwrap(), "rxh/0.1.0");

    let request = Request::from_parts(
        {
            let (mut head, ()) = Request::new(()).into_parts();
            head.headers = headers_with_names(NAMES_WITH_ROOM);
            head
        },
        (),
    );
    let mut request = ProxyRequest::new(request, written("c:1"), written("s:2"));
    assert!(request.forward());
    assert_eq!(request.headers().keys_len(), NAMES_WITH_ROOM + 1);
}

#[test]
fn headers_without_room_stay_as_they_are() {
    let mut headers = hyper::HeaderMap::new();
    let mut names = 0;
    loop {
        let name = header::HeaderName::from_bytes(format!("x-{names}").as_bytes()).unwrap();
        if headers
            .try_insert(name, HeaderValue::from_static("v"))
            .is_err()
        {
            break;
        }
        names += 1;
        assert!(names <= 32768);
    }
    assert!(names > NAMES_WITH_ROOM);
    assert_eq!(headers.keys_len(), names);

    assert!(!forward_headers(&mut headers, "c:1", "s:2"));
    assert!(!sign(&mut headers));
    assert_eq!(headers.keys_len(), names);
    assert_eq!(headers.len(), names);
    assert!(!headers.contains_key("forwarded"));
    assert!(!headers.contains_key("server"));
    assert_eq!(headers.get("x-0").unwrap(), "v");

    let mut response = Response::new(String::from("body"));
    *response.headers_mut() = headers.clone();
    let mut response = ProxyResponse::new(response);
    assert!(!response.has_room());
    assert!(!response.sign());
    match response.try_into_forwarded() {
        Ok(_) => panic!("a response without room cannot be signed"),
        Err(unchanged) => assert_eq!(unchanged.status(), 200),
    }

    let mut request = Request::new(String::from("body"));
    *request.headers_mut() = headers;
    let request = ProxyRequest::new(request, written("c:1"), written("s:2"));
    assert!(!request.has_room());
    match request.try_into_forwarded() {
        Ok(_) => panic!("a request without room cannot be forwarded"),
        Err(unchanged) => {
            assert_eq!(unchanged.headers().keys_len(), names);
            assert!(!unchanged.headers().contains_key("forwarded"));
        }
    }
}

#[test]
fn requests_and_responses_with_room_are_forwarded() {
    let request = proxied(empty_request("/"));
    assert!(request.has_room());
    match request.try_into_forwarded() {
        Ok(sent) => assert_eq!(
            sent.headers().get(header::FORWARDED).unwrap(),
            "for=127.0.0.1:8000;by=127.0.0.1:9000;host=127.0.0.1:9000"
        ),
        Err(_) => panic!("a request with room is forwarded"),
    }

    let response = ProxyResponse::new(Response::new(()));
    assert!(response.has_room());
    match response.try_into_forwarded() {
        Ok(sent) => assert_eq!(sent.headers().get(header::SERVER).unwrap(), "rxh/0.1.0"),
        Err(_) => panic!("a response with room is signed"),
    }
}

#[test]
fn forwarded_request_keeps_method_uri_and_body() {
    let request = Request::builder()
        .method("POST")
        .uri("/page?x=1")
        .header(header::ACCEPT, HeaderValue::from_static("text/html"))
        .body(String::from("payload"))
        .unwrap();
    let sent = ProxyRequest::new(request, written("c:1"), written("s:2")).into_forwarded();
    assert_eq!(sent.method(), "POST");
    assert_eq!(sent.uri(), "/page?x=1");
    assert_eq!(sent.body(), "payload");
    assert_eq!(sent.headers().len(), 2);
    assert_eq!(sent.headers().get(header::ACCEPT).unwrap(), "text/html");
    assert_eq!(
        sent.headers().get(header::FORWARDED).unwrap(),
        "for=c:1;by=s:2;host=s:2"
    );
}

#[test]
fn responses_of_upstream_servers_carry_the_name_of_the_proxy() {
    let response = Response::builder()
        .status(201)
        .header(header::SERVER, HeaderValue::from_static("upstream/1.0"))
        .header(header::CONTENT_TYPE, HeaderValue::from_static("text/css"))
        .body(String::from("body {}"))
        .unwrap();
    let mut response = ProxyResponse::new(response);
    assert_eq!(response.status(), 201);
    assert!(response.sign());
    assert_eq!(response.status(), 201);
    let sent = response.into_forwarded();
    assert_eq!(sent.status(), 201);
    assert_eq!(sent.body(), "body {}");
    assert_eq!(sent.headers().len(), 2);
    assert_eq!(sent.headers().get(header::SERVER).unwrap(), "rxh/0.1.0");
    assert_eq!(sent.headers().get(header::CONTENT_TYPE).unwrap(), "text/css");

    let unsigned = Response::builder().status(101).body(()).unwrap();
    assert_eq!(ProxyResponse::new(unsigned).status(), 101);
    let sent = ProxyResponse::new(Response::new(())).into_forwarded();
    assert_eq!(sent.headers().get(header::SERVER).unwrap(), server_name());

    let mut headers = hyper::HeaderMap::new();
    assert!(sign(&mut headers));
    assert_eq!(headers.len(), 1);
    assert_eq!(headers.get("server").unwrap(), "rxh/0.1.0");
}

#[test]
fn proxy_request_reads_the_request() {
    let request = Request::builder()
        .uri("/docs/index.html?lang=en")
        .header(header::HOST, HeaderValue::from_static("example.com"))
        .header(header::UPGRADE, HeaderValue::from_static("testproto"))
        .body(Empty::<Bytes>::new())
        .unwrap();
    let mut request = proxied(request);
    assert_eq!(
        request.path_and_query(),
        Some(String::from("/docs/index.html?lang=en"))
    );
    assert_eq!(request.path(), "/docs/index.html");
    assert!(request.wants_upgrade());
    assert_eq!(request.headers().get("host").unwrap(), "example.com");
    assert_eq!(request.headers().get("forwarded"), None);
    assert!(request.forward());
    assert_eq!(
        request.headers().get("forwarded").unwrap(),
        "for=127.0.0.1:8000;by=127.0.0.1:9000;host=example.com"
    );
    assert_eq!(request.headers().len(), 3);
    assert_eq!(
        request.path_and_query(),
        Some(String::from("/docs/index.html?lang=en"))
    );
    assert!(!proxied(empty_request("/")).wants_upgrade());
}

#[test]
fn addresses_are_written_in_header_text() {
    assert_eq!(written("[::1]:8080").as_str(), "[::1]:8080");
    assert_eq!(written("").as_str(), "");
    assert!(AddressText::new(String::from("127.0.0.1:80\r\nX-Evil: 1")).is_none());
    assert!(AddressText::new(String::from("del\u{7f}")).is_none());
    assert!(AddressText::new(String::from("caf\u{e9}")).is_none());
}

#[test]
fn forwarded_names_a_host_that_is_not_ascii() {
    let request = Request::builder()
        .header(header::HOST, HeaderValue::from_str("caf\u{e9}.example").unwrap())
        .body(Empty::<Bytes>::new())
        .unwrap();
    let sent = ProxyRequest::new(request, written("c:1"), written("s:2")).into_forwarded();
    assert_eq!(
        sent.headers().get(header::FORWARDED).unwrap().as_bytes(),
        "for=c:1;by=s:2;host=caf\u{e9}.example".as_bytes()
    );
}

#[test]
fn header_text_is_visible_ascii() {
    assert!(is_text(""));
    assert!(is_text("for=127.0.0.1:8000;by=[::1]:9000;host=example.com"));
    assert!(is_text("tab\tand space ~"));
    assert!(!is_text("line\nbreak"));
    assert!(!is_text("caf\u{e9}"));
    assert!(!is_text("\u{1f600}"));
    assert!(!is_text("nul\u{0}"));
    assert!(!is_text("escape\u{1b}"));
    assert!(!is_text("del\u{7f}"));
}

#[test]
fn upgraded_connection() {
    let backend = local(8080);
    let request = Request::builder()
        .header(header::CONNECTION, HeaderValue::from_static("upgrade"))
        .header(header::UPGRADE, HeaderValue::from_static("testproto"))
        .body(Empty::<Bytes>::new())
        .unwrap();
    let request = proxied(request);

    let mut forwarding = forward(&request, backend);
    assert!(forwarding.upgrade);
    assert_eq!(
        forwarding.advance(Outcome::Dialed { connected: true }),
        Plan::Handshake
    );
    assert_eq!(
        forwarding.advance(Outcome::Handshaken { established: true }),
        Plan::Send { upgrade: true }
    );
    assert_eq!(
        forwarding.advance(Outcome::Responded {
            status: SWITCHING_PROTOCOLS
        }),
        Plan::Tunnel
    );
    assert_eq!(SWITCHING_PROTOCOLS, 101);
}

#[test]
fn upgrade_that_the_client_did_not_ask_for_is_a_bad_gateway() {
    let mut forwarding = Forwarding::begin(local(8080), false);
    forwarding.advance(Outcome::Dialed { connected: true });
    forwarding.advance(Outcome::Handshaken { established: true });
    assert_eq!(
        forwarding.advance(Outcome::Responded { status: 101 }),
        Plan::Respond(LocalResponse::bad_gateway())
    );
}

#[test]
fn upgrade_that_the_server_declines_is_an_ordinary_response() {
    let mut forwarding = Forwarding::begin(local(8080), true);
    forwarding.advance(Outcome::Dialed { connected: true });
    forwarding.advance(Outcome::Handshaken { established: true });
    assert_eq!(
        forwarding.advance(Outcome::Responded { status: 426 }),
        Plan::Return
    );
}

#[test]
fn http_errors_end_the_connection() {
    let mut forwarding = Forwarding::begin(local(8080), false);
    forwarding.advance(Outcome::Dialed { connected: true });
    assert_eq!(
        forwarding.advance(Outcome::Handshaken { established: false }),
        Plan::Fail
    );

    let mut forwarding = Forwarding::begin(local(8080), false);
    forwarding.advance(Outcome::Dialed { connected: true });
    forwarding.advance(Outcome::Handshaken { established: true });
    assert_eq!(forwarding.advance(Outcome::Broken), Plan::Fail);
    assert_eq!(forwarding.progress, Progress::Done);
}

#[test]
fn outcomes_out_of_turn_are_a_bad_gateway() {
    let mut forwarding = Forwarding::begin(local(8080), true);
    assert_eq!(
        forwarding.advance(Outcome::Responded { status: 101 }),
        Plan::Respond(LocalResponse::bad_gateway())
    );
    assert_eq!(
        forwarding.advance(Outcome::Dialed { connected: true }),
        Plan::Respond(LocalResponse::bad_gateway())
    );
}

#[test]
fn first_matching_pattern_wins() {
    let patterns = vec![
        pattern_serve("/static", "/srv/static"),
        pattern_forward(
            "/stat",
            vec![Backend {
                address: local(1),
                weight: 1,
            }],
        ),
        pattern_serve("/", "/srv/www"),
    ];
    assert_eq!(find_pattern(&patterns, "/static/app.js"), Some(0));
    assert_eq!(find_pattern(&patterns, "/status"), Some(1));
    assert_eq!(find_pattern(&patterns, "/other"), Some(2));
    assert_eq!(find_pattern(&patterns, "other"), None);
    assert_eq!(find_pattern(&patterns, ""), None);
    assert_eq!(find_pattern(&Vec::new(), "/"), None);

    let config = server(patterns);
    let service = Rxh::new(&config, local(50000), local(9000));
    assert_eq!(service.client_addr(), local(50000));
    assert_eq!(service.server_addr(), local(9000));
    assert_eq!(
        service.route("/static/app.js?v=2", "/static/app.js"),
        Dispatch::Serve {
            pattern: 0,
            path: String::from("static/app.js"),
            root: String::from("/srv/static"),
        }
    );
    assert_eq!(
        service.route("/status", "/status"),
        Dispatch::Forward {
            pattern: 1,
            to: local(1)
        }
    );
}

#[test]
fn patterns_are_matched_against_path_and_query() {
    let config = server(vec![
        pattern_serve("/files?", "/srv/queries"),
        pattern_serve("http", "/srv/never"),
        pattern_serve("/files", "/srv/files"),
    ]);
    let service = Rxh::new(&config, local(50000), local(9000));
    assert_eq!(
        service.call(&proxied(empty_request("/files?name=a"))),
        Dispatch::Serve {
            pattern: 0,
            path: String::from("files"),
            root: String::from("/srv/queries"),
        }
    );
    assert_eq!(
        service.call(&proxied(empty_request("http://example.com/files/a.txt"))),
        Dispatch::Serve {
            pattern: 2,
            path: String::from("files/a.txt"),
            root: String::from("/srv/files"),
        }
    );
    let absolute = proxied(empty_request("http://example.com/files/a.txt"));
    assert_eq!(
        absolute.path_and_query(),
        Some(String::from("/files/a.txt"))
    );
    let authority = proxied(empty_request("example.com:443"));
    assert_eq!(authority.path_and_query(), None);
    assert_eq!(service.call(&authority), Dispatch::NotFound);
}

#[test]
fn relative_path_strips_one_separator() {
    assert_eq!(relative_path("/index.html"), "index.html");
    assert_eq!(relative_path("index.html"), "index.html");
    assert_eq!(relative_path("//etc/passwd"), "/etc/passwd");
    assert_eq!(relative_path("/"), "");
    assert_eq!(relative_path(""), "");
    assert_eq!(relative_path("/caf\u{e9}/\u{1f600}"), "caf\u{e9}/\u{1f600}");
}

fn path(components: &[&str], extension: Option<&str>) -> CanonicalPath {
    CanonicalPath {
        components: components.iter().map(|c| c.as_bytes().to_vec()).collect(),
        extension: extension.map(String::from),
    }
}

#[test]
fn serve_files() {
    let html = "<!DOCTYPE html><html><body><p>Hello World</p></body></html>";
    let config = server(vec![pattern_serve("/", "/tmp/site")]);
    let service = Rxh::new(&config, local(50000), local(9000));
    assert_eq!(
        service.call(&proxied(empty_request("/index.html"))),
        Dispatch::Serve {
            pattern: 0,
            path: String::from("index.html"),
            root: String::from("/tmp/site"),
        }
    );

    let transfer = Transfer::begin();
    let (transfer, step) = transfer.advance(Found::Root(Some(path(&["/", "tmp", "site"], None))));
    assert_eq!(step, Step::ResolveFile);
    let (transfer, step) = transfer.advance(Found::File(Some(path(
        &["/", "tmp", "site", "index.html"],
        Some("html"),
    ))));
    assert_eq!(step, Step::Inspect);
    let (transfer, step) = transfer.advance(Found::Regular(true));
    assert_eq!(step, Step::Read);
    let (transfer, step) = transfer.advance(Found::Content(Some(html.as_bytes().to_vec())));
    assert_eq!(transfer, Transfer::Done);
    match step {
        Step::Respond(response) => {
            assert_eq!(response.status, 200);
            assert_eq!(response.body, html.as_bytes());
            assert_eq!(response.content_type, Some(String::from("text/html")));
            assert_eq!(response.server, "rxh/0.1.0");
        }
        other => panic!("expected a response, got {:?}", other),
    }
}

fn not_found() -> (Transfer, Step) {
    (Transfer::Done, Step::Respond(LocalResponse::not_found()))
}

#[test]
fn files_outside_the_root_are_not_found() {
    let root = || Found::Root(Some(path(&["/", "srv", "www"], None)));
    for outside in [
        path(&["/", "etc", "passwd"], None),
        path(&["/", "srv"], None),
        path(&["/", "srv", "www2", "index.html"], Some("html")),
        path(&["/"], None),
        path(&[], None),
    ] {
        let (transfer, _) = Transfer::begin().advance(root());
        assert_eq!(transfer.advance(Found::File(Some(outside))), not_found());
    }
}

#[test]
fn files_that_cannot_be_served_are_not_found() {
    let root = || Found::Root(Some(path(&["/", "srv", "www"], None)));
    let file = || Found::File(Some(path(&["/", "srv", "www", "a.css"], Some("css"))));

    assert_eq!(Transfer::begin().advance(Found::Root(None)), not_found());

    let (transfer, _) = Transfer::begin().advance(root());
    assert_eq!(transfer.advance(Found::File(None)), not_found());

    let (transfer, _) = Transfer::begin().advance(root());
    let (transfer, _) = transfer.advance(file());
    assert_eq!(transfer.advance(Found::Regular(false)), not_found());

    let (transfer, _) = Transfer::begin().advance(root());
    let (transfer, _) = transfer.advance(file());
    let (transfer, _) = transfer.advance(Found::Regular(true));
    assert_eq!(transfer.advance(Found::Content(None)), not_found());
}

#[test]
fn findings_out_of_turn_are_not_found() {
    assert_eq!(
        Transfer::begin().advance(Found::Content(Some(vec![1, 2, 3]))),
        not_found()
    );
    assert_eq!(Transfer::begin().advance(Found::Regular(true)), not_found());
    let (transfer, _) = Transfer::begin().advance(Found::Root(Some(path(&["/"], None))));
    assert_eq!(
        transfer.advance(Found::Content(Some(vec![1, 2, 3]))),
        not_found()
    );
    assert_eq!(
        Transfer::Done.advance(Found::Root(Some(path(&["/"], None)))),
        not_found()
    );
}

#[test]
fn a_directory_is_within_itself_and_above_its_files() {
    let root = path(&["/", "srv", "www"], None);
    assert!(root.is_within(&root));
    assert!(path(&["/", "srv", "www", "a", "b.txt"], Some("txt")).is_within(&root));
    assert!(!path(&["/", "srv", "ww"], None).is_within(&root));
    assert!(!path(&["/", "srv", "wwww"], None).is_within(&root));
    assert!(!path(&["/", "srv"], None).is_within(&root));
    assert!(root.is_within(&path(&[], None)));
}

#[test]
fn content_type_by_extension() {
    let of = |extension: &str| content_type(&Some(String::from(extension)));
    assert_eq!(of("html"), "text/html");
    assert_eq!(of("css"), "text/css");
    assert_eq!(of("js"), "application/javascript");
    assert_eq!(of("png"), "image/png");
    assert_eq!(of("jpeg"), "image/jpeg");
    assert_eq!(of("txt"), "text/plain");
    assert_eq!(of("jpg"), "text/plain");
    assert_eq!(of("HTML"), "text/plain");
    assert_eq!(of(""), "text/plain");
    assert_eq!(content_type(&None), "text/plain");
}

#[test]
fn local_responses() {
    assert_eq!(server_name(), "rxh/0.1.0");
    let not_found = LocalResponse::not_found();
    assert_eq!(not_found.status, 404);
    assert_eq!(not_found.server, "rxh/0.1.0");
    assert_eq!(not_found.content_type, None);
    assert!(not_found.body.is_empty());
    let bad_gateway = LocalResponse::bad_gateway();
    assert_eq!(bad_gateway.status, 502);
    assert_eq!(bad_gateway.server, "rxh/0.1.0");
    assert!(bad_gateway.body.is_empty());
    let ok = LocalResponse::ok("text/css", vec![1, 2]);
    assert_eq!(ok.status, 200);
    assert_eq!(ok.server, "rxh/0.1.0");
    assert_eq!(ok.content_type, Some(String::from("text/css")));
    assert_eq!(ok.body, vec![1, 2]);
}
