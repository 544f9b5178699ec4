use ftnet::control::{
    act_on_what_to_do, default_identity, find_identity, host_id, route_request, Reply,
    RequestPatch, Route, WhatToDo,
};

fn map() -> Vec<(String, u16)> {
    vec![
        ("alice".to_string(), 8001),
        ("bob".to_string(), 8002),
        ("alice".to_string(), 9000),
    ]
}

#[test]
fn host_id_is_text_before_first_dot() {
    assert_eq!(host_id("alice.localhost.direct"), Some("alice".to_string()));
    assert_eq!(host_id("a.b"), Some("a".to_string()));
    assert_eq!(host_id(".b"), Some(String::new()));
    assert_eq!(host_id("ünï.x"), Some("ünï".to_string()));
}

#[test]
fn host_without_dot_names_no_identity() {
    assert_eq!(host_id("localhost"), None);
    assert_eq!(host_id(""), None);
}

#[test]
fn find_identity_takes_first_entry() {
    assert_eq!(find_identity("alice", &map()), Some(8001));
    assert_eq!(find_identity("bob", &map()), Some(8002));
}

#[test]
fn find_identity_of_unknown_is_none() {
    assert_eq!(find_identity("carol", &map()), None);
    assert_eq!(find_identity("alice", &Vec::new()), None);
}

#[test]
fn default_identity_is_first() {
    assert_eq!(default_identity(&map()), ("alice".to_string(), 8001));
}

#[test]
fn request_without_host_is_bad_request() {
    match route_request(None, &map()) {
        Route::Reply(Reply::Respond(r)) => {
            assert_eq!(r.status, 400);
            assert_eq!(r.body, b"got http request without Host header".to_vec());
        }
        other => panic!("unexpected route {other:?}"),
    }
}

#[test]
fn request_with_dotless_host_is_bad_request() {
    match route_request(Some("localhost"), &Vec::new()) {
        Route::Reply(Reply::Respond(r)) => assert_eq!(r.status, 400),
        other => panic!("unexpected route {other:?}"),
    }
}

#[test]
fn request_for_local_identity_is_proxied() {
    match route_request(Some("bob.localhost"), &map()) {
        Route::Reply(Reply::ProxyPass { port, patch }) => {
            assert_eq!(port, 8002);
            assert_eq!(patch, RequestPatch::default());
        }
        other => panic!("unexpected route {other:?}"),
    }
}

#[test]
fn request_for_other_id_asks_default_identity() {
    match route_request(Some("carol.localhost"), &map()) {
        Route::AskWhatToDo { id, default_id, default_port } => {
            assert_eq!(id, "carol");
            assert_eq!(default_id, "alice");
            assert_eq!(default_port, 8001);
        }
        other => panic!("unexpected route {other:?}"),
    }
}

#[test]
fn forward_to_peer_goes_to_peer() {
    let answer = Ok(WhatToDo::ForwardToPeer { peer_id: "peer".to_string(), patch: RequestPatch {} });
    match act_on_what_to_do("me".to_string(), answer) {
        Reply::PeerProxy { self_id52, peer_id52, .. } => {
            assert_eq!(self_id52, "me");
            assert_eq!(peer_id52, "peer");
        }
        other => panic!("unexpected reply {other:?}"),
    }
}

#[test]
fn device_goes_to_its_port() {
    let answer = Ok(WhatToDo::ProxyPass { port: 7000, extra_headers: RequestPatch {} });
    match act_on_what_to_do("me".to_string(), answer) {
        Reply::ProxyPass { port, .. } => assert_eq!(port, 7000),
        other => panic!("unexpected reply {other:?}"),
    }
}

#[test]
fn unknown_peer_is_server_error() {
    match act_on_what_to_do("me".to_string(), Ok(WhatToDo::UnknownPeer)) {
        Reply::Respond(r) => {
            assert_eq!(r.status, 500);
            assert_eq!(r.body, b"unknown peer".to_vec());
        }
        other => panic!("unexpected reply {other:?}"),
    }
}

#[test]
fn failed_service_is_server_error() {
    match act_on_what_to_do("me".to_string(), Err("connection refused".to_string())) {
        Reply::Respond(r) => {
            assert_eq!(r.status, 500);
            assert_eq!(r.body, b"failed to contact default identity service".to_vec());
        }
        other => panic!("unexpected reply {other:?}"),
    }
}
